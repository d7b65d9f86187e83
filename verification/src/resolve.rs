//! The fully-populated configuration record and the three-layer resolution
//! that produces it: a `"defaults"` overlay, then a guest-OS tweak overlay,
//! then the explicit per-VM file, merged field by field with the explicit
//! file winning, and every still-unset field filled with a built-in default.

use vstd::prelude::*;
use vstd::string::{StrSliceExecFns, StringExecFns};

use crate::options::{
    get_empty_config, merge_options, spec_empty_options, QuickEmuConfigOptions,
};

verus! {

/// The resolved record consumed by command synthesis. Every field holds a
/// concrete value; string fields default to `""` or a named default, never
/// to absence.
#[derive(Clone, Debug, PartialEq)]
pub struct QuickEmuConfig {
    pub vmname: String,
    pub launcher: String,
    pub guest_os: String,
    pub cpu: String,
    pub kvm: bool,
    pub ram: String,
    pub cpu_cores: u8,
    pub machine: String,
    pub boot_menu: bool,
    pub boot: String,
    pub iso: String,
    pub driver_iso: String,
    pub disk_img: String,
    pub disk2_img: String,
    pub disk: String,
    pub disk2: String,
    pub floppy: String,
    pub disk_interface: String,
    pub scsi_controller: String,
    pub display_device: String,
    pub audio: String,
    pub audio_output: String,
    pub pc_spkr: String,
    pub virgl: bool,
    pub gl: bool,
    pub output: String,
    pub output_extras: String,
    pub rtc: bool,
    pub spice: bool,
    pub qemu_path: String,
    pub qemu_img_path: String,
}

/// Four-layer, field-level priority for a string field: the VM file's value
/// wins, then the guest-OS tweak's, then the `"defaults"` overlay's, then the
/// built-in default.
pub open spec fn spec_pick_str(
    vm: Option<String>,
    tweak: Option<String>,
    defaults: Option<String>,
    builtin: Seq<char>,
) -> Seq<char> {
    if vm is Some {
        vm->0@
    } else if tweak is Some {
        tweak->0@
    } else if defaults is Some {
        defaults->0@
    } else {
        builtin
    }
}

/// Four-layer, field-level priority for a non-string field.
pub open spec fn spec_pick_val<A>(
    vm: Option<A>,
    tweak: Option<A>,
    defaults: Option<A>,
    builtin: A,
) -> A {
    if vm is Some {
        vm->0
    } else if tweak is Some {
        tweak->0
    } else if defaults is Some {
        defaults->0
    } else {
        builtin
    }
}

/// The overlay document to merge when one was found, the empty document
/// otherwise.
pub open spec fn spec_or_empty(o: Option<QuickEmuConfigOptions>) -> QuickEmuConfigOptions {
    match o {
        Some(d) => d,
        None => spec_empty_options(),
    }
}

/// The guest-OS tag that selects a tweak overlay: the VM file's own value
/// when set, `"linux"` otherwise. Overlay layers never decide this tag.
pub open spec fn spec_guest_os(vm: QuickEmuConfigOptions) -> Seq<char> {
    match vm.guest_os {
        Some(g) => g@,
        None => "linux"@,
    }
}

/// The guest-OS tag of a VM file, specified by `spec_guest_os`.
pub fn guest_os_of(vm: &QuickEmuConfigOptions) -> (r: String)
    ensures
        r@ == spec_guest_os(*vm),
{
    match &vm.guest_os {
        Some(g) => g.clone(),
        None => String::from_str("linux"),
    }
}

fn unwrap_or_str(o: Option<String>, builtin: &str) -> (r: String)
    ensures
        r@ == (if o is Some {
            o->0@
        } else {
            builtin@
        }),
{
    match o {
        Some(s) => s,
        None => String::from_str(builtin),
    }
}

/// Every field of a resolved record obeys the four-layer, field-level
/// priority: the VM file wins, then the guest-OS tweak overlay, then the
/// `"defaults"` overlay, then the built-in default; the guest-OS tag comes
/// from the VM file alone, and the speaker field is always empty.
pub open spec fn spec_resolution(
    c: QuickEmuConfig,
    defaults: Option<QuickEmuConfigOptions>,
    tweak: Option<QuickEmuConfigOptions>,
    vm: QuickEmuConfigOptions,
    fallback_name: Seq<char>,
) -> bool {
        &&& c.vmname@ == spec_pick_str(
            vm.vmname,
            spec_or_empty(tweak).vmname,
            spec_or_empty(defaults).vmname,
            fallback_name,
        )
        &&& c.launcher@ == spec_pick_str(
            vm.launcher,
            spec_or_empty(tweak).launcher,
            spec_or_empty(defaults).launcher,
            "slquickemu"@,
        )
        &&& c.guest_os@ == spec_guest_os(vm)
        &&& c.cpu@ == spec_pick_str(
            vm.cpu,
            spec_or_empty(tweak).cpu,
            spec_or_empty(defaults).cpu,
            "-cpu host,kvm=on"@,
        )
        &&& c.kvm == spec_pick_val(vm.kvm, spec_or_empty(tweak).kvm, spec_or_empty(defaults).kvm, true)
        &&& c.ram@ == spec_pick_str(
            vm.ram,
            spec_or_empty(tweak).ram,
            spec_or_empty(defaults).ram,
            "auto"@,
        )
        &&& c.cpu_cores == spec_pick_val(
            vm.cpu_cores,
            spec_or_empty(tweak).cpu_cores,
            spec_or_empty(defaults).cpu_cores,
            0u8,
        )
        &&& c.machine@ == spec_pick_str(
            vm.machine,
            spec_or_empty(tweak).machine,
            spec_or_empty(defaults).machine,
            "q35"@,
        )
        &&& c.boot_menu == spec_pick_val(
            vm.boot_menu,
            spec_or_empty(tweak).boot_menu,
            spec_or_empty(defaults).boot_menu,
            false,
        )
        &&& c.boot@ == spec_pick_str(
            vm.boot,
            spec_or_empty(tweak).boot,
            spec_or_empty(defaults).boot,
            ""@,
        )
        &&& c.iso@ == spec_pick_str(vm.iso, spec_or_empty(tweak).iso, spec_or_empty(defaults).iso, ""@)
        &&& c.driver_iso@ == spec_pick_str(
            vm.driver_iso,
            spec_or_empty(tweak).driver_iso,
            spec_or_empty(defaults).driver_iso,
            ""@,
        )
        &&& c.disk_img@ == spec_pick_str(
            vm.disk_img,
            spec_or_empty(tweak).disk_img,
            spec_or_empty(defaults).disk_img,
            ""@,
        )
        &&& c.disk2_img@ == spec_pick_str(
            vm.disk2_img,
            spec_or_empty(tweak).disk2_img,
            spec_or_empty(defaults).disk2_img,
            ""@,
        )
        &&& c.disk@ == spec_pick_str(
            vm.disk,
            spec_or_empty(tweak).disk,
            spec_or_empty(defaults).disk,
            "128G"@,
        )
        &&& c.disk2@ == spec_pick_str(
            vm.disk2,
            spec_or_empty(tweak).disk2,
            spec_or_empty(defaults).disk2,
            "128G"@,
        )
        &&& c.floppy@ == spec_pick_str(
            vm.floppy,
            spec_or_empty(tweak).floppy,
            spec_or_empty(defaults).floppy,
            ""@,
        )
        &&& c.disk_interface@ == spec_pick_str(
            vm.disk_interface,
            spec_or_empty(tweak).disk_interface,
            spec_or_empty(defaults).disk_interface,
            "none"@,
        )
        &&& c.scsi_controller@ == spec_pick_str(
            vm.scsi_controller,
            spec_or_empty(tweak).scsi_controller,
            spec_or_empty(defaults).scsi_controller,
            ""@,
        )
        &&& c.display_device@ == spec_pick_str(
            vm.display_device,
            spec_or_empty(tweak).display_device,
            spec_or_empty(defaults).display_device,
            "vga"@,
        )
        &&& c.audio@ == spec_pick_str(
            vm.audio,
            spec_or_empty(tweak).audio,
            spec_or_empty(defaults).audio,
            "intel-hda"@,
        )
        &&& c.audio_output@ == spec_pick_str(
            vm.audio_output,
            spec_or_empty(tweak).audio_output,
            spec_or_empty(defaults).audio_output,
            "pa"@,
        )
        &&& c.pc_spkr@ == Seq::<char>::empty()
        &&& c.virgl == spec_pick_val(
            vm.virgl,
            spec_or_empty(tweak).virgl,
            spec_or_empty(defaults).virgl,
            true,
        )
        &&& c.gl == spec_pick_val(vm.gl, spec_or_empty(tweak).gl, spec_or_empty(defaults).gl, true)
        &&& c.output@ == spec_pick_str(
            vm.output,
            spec_or_empty(tweak).output,
            spec_or_empty(defaults).output,
            "sdl"@,
        )
        &&& c.output_extras@ == spec_pick_str(
            vm.output_extras,
            spec_or_empty(tweak).output_extras,
            spec_or_empty(defaults).output_extras,
            ""@,
        )
        &&& c.rtc == spec_pick_val(vm.rtc, spec_or_empty(tweak).rtc, spec_or_empty(defaults).rtc, true)
        &&& c.spice == spec_pick_val(
            vm.spice,
            spec_or_empty(tweak).spice,
            spec_or_empty(defaults).spice,
            true,
        )
        &&& c.qemu_path@ == spec_pick_str(
            vm.qemu_path,
            spec_or_empty(tweak).qemu_path,
            spec_or_empty(defaults).qemu_path,
            "/snap/bin/qemu-virgil"@,
        )
        &&& c.qemu_img_path@ == spec_pick_str(
            vm.qemu_img_path,
            spec_or_empty(tweak).qemu_img_path,
            spec_or_empty(defaults).qemu_img_path,
            "/snap/bin/qemu-virgil.qemu-img"@,
        )
}

/// Resolve one VM: merge the `"defaults"` overlay, the guest-OS tweak
/// overlay and the VM file's own document in rising priority, then fill
/// every still-unset field with its built-in default. `fallback_name` names
/// the VM when no layer sets a name (the configuration file's stem).
///
/// Every field of the result obeys the same four-layer priority, stated
/// field by field below.
pub fn resolve_config(
    defaults: Option<QuickEmuConfigOptions>,
    tweak: Option<QuickEmuConfigOptions>,
    vm: QuickEmuConfigOptions,
    fallback_name: &str,
) -> (c: QuickEmuConfig)
    ensures
        spec_resolution(c, defaults, tweak, vm, fallback_name@),
{
    let guest_os = guest_os_of(&vm);
    let d = match defaults {
        Some(x) => x,
        None => get_empty_config(),
    };
    let t = match tweak {
        Some(x) => x,
        None => get_empty_config(),
    };
    let merged = merge_options(merge_options(d, t), vm);
    QuickEmuConfig {
        vmname: unwrap_or_str(merged.vmname, fallback_name),
        launcher: unwrap_or_str(merged.launcher, "slquickemu"),
        guest_os,
        cpu: unwrap_or_str(merged.cpu, "-cpu host,kvm=on"),
        kvm: merged.kvm.unwrap_or(true),
        ram: unwrap_or_str(merged.ram, "auto"),
        cpu_cores: merged.cpu_cores.unwrap_or(0u8),
        machine: unwrap_or_str(merged.machine, "q35"),
        boot_menu: merged.boot_menu.unwrap_or(false),
        boot: unwrap_or_str(merged.boot, ""),
        iso: unwrap_or_str(merged.iso, ""),
        driver_iso: unwrap_or_str(merged.driver_iso, ""),
        disk_img: unwrap_or_str(merged.disk_img, ""),
        disk2_img: unwrap_or_str(merged.disk2_img, ""),
        disk: unwrap_or_str(merged.disk, "128G"),
        disk2: unwrap_or_str(merged.disk2, "128G"),
        floppy: unwrap_or_str(merged.floppy, ""),
        disk_interface: unwrap_or_str(merged.disk_interface, "none"),
        scsi_controller: unwrap_or_str(merged.scsi_controller, ""),
        display_device: unwrap_or_str(merged.display_device, "vga"),
        audio: unwrap_or_str(merged.audio, "intel-hda"),
        audio_output: unwrap_or_str(merged.audio_output, "pa"),
        pc_spkr: String::new(),
        virgl: merged.virgl.unwrap_or(true),
        gl: merged.gl.unwrap_or(true),
        output: unwrap_or_str(merged.output, "sdl"),
        output_extras: unwrap_or_str(merged.output_extras, ""),
        rtc: merged.rtc.unwrap_or(true),
        spice: merged.spice.unwrap_or(true),
        qemu_path: unwrap_or_str(merged.qemu_path, "/snap/bin/qemu-virgil"),
        qemu_img_path: unwrap_or_str(merged.qemu_img_path, "/snap/bin/qemu-virgil.qemu-img"),
    }
}

} // verus!

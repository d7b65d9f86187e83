//! The partially-specified configuration record: the shape of every loaded
//! document (the per-VM file, the `"defaults"` overlay, and each guest-OS
//! tweak document), and the field-level merge that flattens an overlay stack.

use vstd::prelude::*;

verus! {

/// One loaded configuration document. Every field is optional; absence means
/// "inherit from the next overlay layer, or fall back to the built-in
/// default".
#[derive(Clone, Debug, PartialEq)]
pub struct QuickEmuConfigOptions {
    pub vmname: Option<String>,
    pub launcher: Option<String>,
    pub guest_os: Option<String>,
    pub cpu: Option<String>,
    pub kvm: Option<bool>,
    pub ram: Option<String>,
    pub cpu_cores: Option<u8>,
    pub machine: Option<String>,
    pub boot_menu: Option<bool>,
    pub boot: Option<String>,
    pub iso: Option<String>,
    pub driver_iso: Option<String>,
    pub disk_img: Option<String>,
    pub disk2_img: Option<String>,
    pub disk: Option<String>,
    pub disk2: Option<String>,
    pub floppy: Option<String>,
    pub disk_interface: Option<String>,
    pub scsi_controller: Option<String>,
    pub display_device: Option<String>,
    pub audio: Option<String>,
    pub audio_output: Option<String>,
    pub virgl: Option<bool>,
    pub gl: Option<bool>,
    pub output: Option<String>,
    pub output_extras: Option<String>,
    pub rtc: Option<bool>,
    pub spice: Option<bool>,
    pub qemu_path: Option<String>,
    pub qemu_img_path: Option<String>,
}

/// The first operand if it is set, the second otherwise.
pub open spec fn spec_or_opt<A>(a: Option<A>, b: Option<A>) -> Option<A> {
    if a is Some {
        a
    } else {
        b
    }
}

fn or_opt<A>(a: Option<A>, b: Option<A>) -> (r: Option<A>)
    ensures
        r == spec_or_opt(a, b),
{
    match a {
        Some(v) => Some(v),
        None => b,
    }
}

/// The field-level merge of two documents: for every field, the
/// higher-priority document's value wins when it is set, and the
/// lower-priority document's value is inherited otherwise.
pub open spec fn spec_merge(lower: QuickEmuConfigOptions, higher: QuickEmuConfigOptions) -> QuickEmuConfigOptions {
    QuickEmuConfigOptions {
        vmname: spec_or_opt(higher.vmname, lower.vmname),
        launcher: spec_or_opt(higher.launcher, lower.launcher),
        guest_os: spec_or_opt(higher.guest_os, lower.guest_os),
        cpu: spec_or_opt(higher.cpu, lower.cpu),
        kvm: spec_or_opt(higher.kvm, lower.kvm),
        ram: spec_or_opt(higher.ram, lower.ram),
        cpu_cores: spec_or_opt(higher.cpu_cores, lower.cpu_cores),
        machine: spec_or_opt(higher.machine, lower.machine),
        boot_menu: spec_or_opt(higher.boot_menu, lower.boot_menu),
        boot: spec_or_opt(higher.boot, lower.boot),
        iso: spec_or_opt(higher.iso, lower.iso),
        driver_iso: spec_or_opt(higher.driver_iso, lower.driver_iso),
        disk_img: spec_or_opt(higher.disk_img, lower.disk_img),
        disk2_img: spec_or_opt(higher.disk2_img, lower.disk2_img),
        disk: spec_or_opt(higher.disk, lower.disk),
        disk2: spec_or_opt(higher.disk2, lower.disk2),
        floppy: spec_or_opt(higher.floppy, lower.floppy),
        disk_interface: spec_or_opt(higher.disk_interface, lower.disk_interface),
        scsi_controller: spec_or_opt(higher.scsi_controller, lower.scsi_controller),
        display_device: spec_or_opt(higher.display_device, lower.display_device),
        audio: spec_or_opt(higher.audio, lower.audio),
        audio_output: spec_or_opt(higher.audio_output, lower.audio_output),
        virgl: spec_or_opt(higher.virgl, lower.virgl),
        gl: spec_or_opt(higher.gl, lower.gl),
        output: spec_or_opt(higher.output, lower.output),
        output_extras: spec_or_opt(higher.output_extras, lower.output_extras),
        rtc: spec_or_opt(higher.rtc, lower.rtc),
        spice: spec_or_opt(higher.spice, lower.spice),
        qemu_path: spec_or_opt(higher.qemu_path, lower.qemu_path),
        qemu_img_path: spec_or_opt(higher.qemu_img_path, lower.qemu_img_path),
    }
}

/// Merge two documents field by field, the second taking priority.
pub fn merge_options(lower: QuickEmuConfigOptions, higher: QuickEmuConfigOptions) -> (r: QuickEmuConfigOptions)
    ensures
        r == spec_merge(lower, higher),
{
    QuickEmuConfigOptions {
        vmname: or_opt(higher.vmname, lower.vmname),
        launcher: or_opt(higher.launcher, lower.launcher),
        guest_os: or_opt(higher.guest_os, lower.guest_os),
        cpu: or_opt(higher.cpu, lower.cpu),
        kvm: or_opt(higher.kvm, lower.kvm),
        ram: or_opt(higher.ram, lower.ram),
        cpu_cores: or_opt(higher.cpu_cores, lower.cpu_cores),
        machine: or_opt(higher.machine, lower.machine),
        boot_menu: or_opt(higher.boot_menu, lower.boot_menu),
        boot: or_opt(higher.boot, lower.boot),
        iso: or_opt(higher.iso, lower.iso),
        driver_iso: or_opt(higher.driver_iso, lower.driver_iso),
        disk_img: or_opt(higher.disk_img, lower.disk_img),
        disk2_img: or_opt(higher.disk2_img, lower.disk2_img),
        disk: or_opt(higher.disk, lower.disk),
        disk2: or_opt(higher.disk2, lower.disk2),
        floppy: or_opt(higher.floppy, lower.floppy),
        disk_interface: or_opt(higher.disk_interface, lower.disk_interface),
        scsi_controller: or_opt(higher.scsi_controller, lower.scsi_controller),
        display_device: or_opt(higher.display_device, lower.display_device),
        audio: or_opt(higher.audio, lower.audio),
        audio_output: or_opt(higher.audio_output, lower.audio_output),
        virgl: or_opt(higher.virgl, lower.virgl),
        gl: or_opt(higher.gl, lower.gl),
        output: or_opt(higher.output, lower.output),
        output_extras: or_opt(higher.output_extras, lower.output_extras),
        rtc: or_opt(higher.rtc, lower.rtc),
        spice: or_opt(higher.spice, lower.spice),
        qemu_path: or_opt(higher.qemu_path, lower.qemu_path),
        qemu_img_path: or_opt(higher.qemu_img_path, lower.qemu_img_path),
    }
}

/// The document with every field unset.
pub open spec fn spec_empty_options() -> QuickEmuConfigOptions {
    QuickEmuConfigOptions {
        vmname: None,
        launcher: None,
        guest_os: None,
        cpu: None,
        kvm: None,
        ram: None,
        cpu_cores: None,
        machine: None,
        boot_menu: None,
        boot: None,
        iso: None,
        driver_iso: None,
        disk_img: None,
        disk2_img: None,
        disk: None,
        disk2: None,
        floppy: None,
        disk_interface: None,
        scsi_controller: None,
        display_device: None,
        audio: None,
        audio_output: None,
        virgl: None,
        gl: None,
        output: None,
        output_extras: None,
        rtc: None,
        spice: None,
        qemu_path: None,
        qemu_img_path: None,
    }
}

/// A document with every field unset.
pub fn get_empty_config() -> (r: QuickEmuConfigOptions)
    ensures
        r == spec_empty_options(),
{
    QuickEmuConfigOptions {
        vmname: None,
        launcher: None,
        guest_os: None,
        cpu: None,
        kvm: None,
        ram: None,
        cpu_cores: None,
        machine: None,
        boot_menu: None,
        boot: None,
        iso: None,
        driver_iso: None,
        disk_img: None,
        disk2_img: None,
        disk: None,
        disk2: None,
        floppy: None,
        disk_interface: None,
        scsi_controller: None,
        display_device: None,
        audio: None,
        audio_output: None,
        virgl: None,
        gl: None,
        output: None,
        output_extras: None,
        rtc: None,
        spice: None,
        qemu_path: None,
        qemu_img_path: None,
    }
}

} // verus!

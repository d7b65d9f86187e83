//! The library-wide laws, each stated as a public proof function over the
//! spec functions that the executable functions' contracts use.

use vstd::prelude::*;

use crate::options::QuickEmuConfigOptions;
use crate::resolve::{spec_pick_str, spec_pick_val, spec_resolution, QuickEmuConfig};
use crate::strutil::spec_contains;
use crate::synth::{
    spec_build_config, spec_cdrom_index, spec_cpu_arg, spec_drive_cmd, spec_floppy_arg,
    spec_kvm_arg, spec_machine_arg, spec_machine_line, spec_ram_value, HostInfo,
};
use crate::ERRORCODES;

verus! {

/// Field-level precedence for string fields: a value set in the VM file
/// always wins; a field unset there inherits the guest-OS tweak's value; one
/// unset in both inherits the `"defaults"` overlay's value; and one unset in
/// every layer takes the built-in default — independent of which other
/// fields any layer sets.
pub proof fn lemma_field_precedence_str(
    vm: Option<String>,
    tweak: Option<String>,
    defaults: Option<String>,
    builtin: Seq<char>,
)
    ensures
        vm is Some ==> spec_pick_str(vm, tweak, defaults, builtin) == vm->0@,
        vm is None && tweak is Some ==> spec_pick_str(vm, tweak, defaults, builtin) == tweak->0@,
        vm is None && tweak is None && defaults is Some ==> spec_pick_str(
            vm,
            tweak,
            defaults,
            builtin,
        ) == defaults->0@,
        vm is None && tweak is None && defaults is None ==> spec_pick_str(
            vm,
            tweak,
            defaults,
            builtin,
        ) == builtin,
{
}

/// Field-level precedence for non-string fields, as in
/// `lemma_field_precedence_str`.
pub proof fn lemma_field_precedence_val<A>(
    vm: Option<A>,
    tweak: Option<A>,
    defaults: Option<A>,
    builtin: A,
)
    ensures
        vm is Some ==> spec_pick_val(vm, tweak, defaults, builtin) == vm->0,
        vm is None && tweak is Some ==> spec_pick_val(vm, tweak, defaults, builtin) == tweak->0,
        vm is None && tweak is None && defaults is Some ==> spec_pick_val(
            vm,
            tweak,
            defaults,
            builtin,
        ) == defaults->0,
        vm is None && tweak is None && defaults is None ==> spec_pick_val(
            vm,
            tweak,
            defaults,
            builtin,
        ) == builtin,
{
}

/// Resolution is deterministic: two records resolved from the same layers
/// and the same fallback name agree, character for character, on every
/// field.
pub proof fn lemma_resolution_deterministic(
    c1: QuickEmuConfig,
    c2: QuickEmuConfig,
    defaults: Option<QuickEmuConfigOptions>,
    tweak: Option<QuickEmuConfigOptions>,
    vm: QuickEmuConfigOptions,
    fallback_name: Seq<char>,
)
    requires
        spec_resolution(c1, defaults, tweak, vm, fallback_name),
        spec_resolution(c2, defaults, tweak, vm, fallback_name),
    ensures
        c1.vmname@ == c2.vmname@,
        c1.launcher@ == c2.launcher@,
        c1.guest_os@ == c2.guest_os@,
        c1.cpu@ == c2.cpu@,
        c1.kvm == c2.kvm,
        c1.ram@ == c2.ram@,
        c1.cpu_cores == c2.cpu_cores,
        c1.machine@ == c2.machine@,
        c1.boot_menu == c2.boot_menu,
        c1.boot@ == c2.boot@,
        c1.iso@ == c2.iso@,
        c1.driver_iso@ == c2.driver_iso@,
        c1.disk_img@ == c2.disk_img@,
        c1.disk2_img@ == c2.disk2_img@,
        c1.disk@ == c2.disk@,
        c1.disk2@ == c2.disk2@,
        c1.floppy@ == c2.floppy@,
        c1.disk_interface@ == c2.disk_interface@,
        c1.scsi_controller@ == c2.scsi_controller@,
        c1.display_device@ == c2.display_device@,
        c1.audio@ == c2.audio@,
        c1.audio_output@ == c2.audio_output@,
        c1.pc_spkr@ == c2.pc_spkr@,
        c1.virgl == c2.virgl,
        c1.gl == c2.gl,
        c1.output@ == c2.output@,
        c1.output_extras@ == c2.output_extras@,
        c1.rtc == c2.rtc,
        c1.spice == c2.spice,
        c1.qemu_path@ == c2.qemu_path@,
        c1.qemu_img_path@ == c2.qemu_img_path@,
{
}

/// Synthesis is deterministic: any two fragment sequences obtained from the
/// same resolved record and unchanged host facts are identical.
pub proof fn lemma_synthesis_deterministic(
    r1: Result<Seq<Seq<char>>, ERRORCODES>,
    r2: Result<Seq<Seq<char>>, ERRORCODES>,
    c: QuickEmuConfig,
    h: HostInfo,
)
    requires
        r1 == spec_build_config(c, h),
        r2 == spec_build_config(c, h),
    ensures
        r1 == r2,
{
}

/// The machine-profile override: whenever the display-device or
/// disk-interface tag carries the ISA marker, the machine fragment reflects
/// the ISA profile, regardless of any explicit machine value.
pub proof fn lemma_isa_machine_override(c: QuickEmuConfig)
    ensures
        spec_contains(c.display_device@, "isa"@) || spec_contains(c.disk_interface@, "isa"@)
            ==> spec_machine_arg(c) == "isapc"@,
        spec_contains(c.display_device@, "isa"@) || spec_contains(c.disk_interface@, "isa"@)
            ==> spec_machine_line(c) == spec_kvm_arg(c) + " "@ + spec_cpu_arg(c) + " -machine "@
            + "isapc"@,
{
}

/// A SCSI-tagged disk interface (one without the IDE tag) with an empty
/// controller name fails synthesis with the missing-controller error, and no
/// drive fragment is produced for either slot — provided the floppy check
/// preceding the drive decision passes.
pub proof fn lemma_scsi_controller_required(c: QuickEmuConfig, h: HostInfo)
    requires
        spec_contains(c.disk_interface@, "scsi"@),
        !spec_contains(c.disk_interface@, "ide"@),
        c.scsi_controller@.len() == 0,
        c.floppy@.len() == 0 || h.floppy_exists,
    ensures
        spec_build_config(c, h) == Err::<Seq<Seq<char>>, ERRORCODES>(
            ERRORCODES::ScsiControllerMissing,
        ),
        spec_drive_cmd(c, c.disk_img@, 0) == Err::<Seq<char>, ERRORCODES>(
            ERRORCODES::ScsiControllerMissing,
        ),
        spec_drive_cmd(c, c.disk2_img@, 1) == Err::<Seq<char>, ERRORCODES>(
            ERRORCODES::ScsiControllerMissing,
        ),
{
    let iface = c.disk_interface@;
    reveal_strlit("scsi");
    reveal_strlit("none");
    let i = choose|i: int|
        0 <= i && i + "scsi"@.len() <= iface.len() && #[trigger] iface.subrange(
            i,
            i + "scsi"@.len(),
        ) == "scsi"@;
    assert(iface.len() >= 4);
    if iface == "none"@ {
        assert(iface.subrange(i, i + 4)[0] == iface[i]);
        assert(iface[i] == 's');
        assert(false);
    }
    assert(spec_floppy_arg(c.floppy@, h.floppy_exists) is Ok);
}

/// CD-ROM indexing: with an IDE-tagged interface and both disk slots
/// populated, the first optical slot lands at index 2; with a non-IDE
/// interface it stays at its nominal index 0, whatever the disk slots hold.
pub proof fn lemma_cdrom_indexing(c: QuickEmuConfig)
    ensures
        spec_contains(c.disk_interface@, "ide"@) && c.disk_img@.len() > 0 && c.disk2_img@.len() > 0
            ==> spec_cdrom_index(c, 0) == 2,
        !spec_contains(c.disk_interface@, "ide"@) ==> spec_cdrom_index(c, 0) == 0,
{
}

/// The automatic RAM buckets sit exactly at the documented boundaries:
/// 64,000,000 KB and above maps to 4G, 16,000,000 KB up to just below
/// 64,000,000 KB maps to 3G, and anything below maps to 2G.
pub proof fn lemma_auto_ram_buckets(ram: Seq<char>, memory_kb: u64)
    requires
        ram == "auto"@,
    ensures
        memory_kb >= 64000000 ==> spec_ram_value(ram, memory_kb) == "4G"@,
        16000000 <= memory_kb < 64000000 ==> spec_ram_value(ram, memory_kb) == "3G"@,
        memory_kb < 16000000 ==> spec_ram_value(ram, memory_kb) == "2G"@,
{
}

} // verus!

//! Command synthesis: each concern of the resolved record becomes one
//! ordered, whitespace-tokenizable argument fragment. Every decision is a
//! pure function of the record and of plain host facts gathered beforehand.

use vstd::prelude::*;
use vstd::string::{StrSliceExecFns, StringExecFns};

use crate::resolve::QuickEmuConfig;
use crate::strutil::{
    spec_contains, spec_starts_with, spec_u64_string, str_contains, str_eq, str_starts_with,
    u64_to_string,
};
use crate::utils::{find_open_socket, spec_find_open_socket};
use crate::ERRORCODES;

verus! {

/// The CPU fragment: the configured CPU specification, wrapped with the CPU
/// flag marker unless it already begins with it.
pub open spec fn spec_cpu_arg(c: QuickEmuConfig) -> Seq<char> {
    if spec_starts_with(c.cpu@, "-cpu"@) {
        c.cpu@
    } else {
        "-cpu "@ + c.cpu@
    }
}

/// The machine profile: forced to the ISA-bus profile whenever the display
/// device or the disk interface carries the ISA tag, the configured profile
/// otherwise. The force always wins over an explicit machine value.
pub open spec fn spec_machine_arg(c: QuickEmuConfig) -> Seq<char> {
    if spec_contains(c.display_device@, "isa"@) || spec_contains(c.disk_interface@, "isa"@) {
        "isapc"@
    } else {
        c.machine@
    }
}

/// The hardware-acceleration flag, present exactly when acceleration is on.
pub open spec fn spec_kvm_arg(c: QuickEmuConfig) -> Seq<char> {
    if c.kvm {
        "-enable-kvm"@
    } else {
        Seq::<char>::empty()
    }
}

/// The CPU, machine and acceleration pieces of the command line.
pub fn set_cpu_cmd(config: &QuickEmuConfig) -> (r: Result<(String, String, String), ERRORCODES>)
    ensures
        match r {
            Ok(t) => t.0@ == spec_cpu_arg(*config) && t.1@ == spec_machine_arg(*config) && t.2@
                == spec_kvm_arg(*config),
            Err(_) => false,
        },
{
    let cpu: String = if !str_starts_with(config.cpu.as_str(), "-cpu") {
        let mut s = String::from_str("-cpu ");
        s.append(config.cpu.as_str());
        s
    } else {
        config.cpu.as_str().to_owned()
    };
    let machine: String = if str_contains(config.display_device.as_str(), "isa") || str_contains(
        config.disk_interface.as_str(),
        "isa",
    ) {
        String::from_str("isapc")
    } else {
        config.machine.as_str().to_owned()
    };
    let kvm: String = if !config.kvm {
        String::new()
    } else {
        String::from_str("-enable-kvm")
    };
    Ok((cpu, machine, kvm))
}

/// The core count: the configured value, or an automatic choice when the
/// configured value is the zero sentinel (4 on hosts with at least 8
/// physical cores, 2 otherwise).
pub open spec fn spec_cpu_cores(configured: u8, physical: usize) -> u8 {
    if configured == 0 {
        if physical >= 8 {
            4u8
        } else {
            2u8
        }
    } else {
        configured
    }
}

/// The core count for the SMP fragment.
pub fn set_cpu_cores(config: &QuickEmuConfig, physical_cores: usize) -> (n: u8)
    ensures
        n == spec_cpu_cores(config.cpu_cores, physical_cores),
{
    if config.cpu_cores == 0 {
        if physical_cores >= 8 {
            4u8
        } else {
            2u8
        }
    } else {
        config.cpu_cores
    }
}

/// The RAM size: the configured literal, or a bucket chosen from the host's
/// memory when the literal is `"auto"` — 4G for hosts of at least
/// 64,000,000 KB, 3G for at least 16,000,000 KB, 2G below that.
pub open spec fn spec_ram_value(ram: Seq<char>, memory_kb: u64) -> Seq<char> {
    if ram == "auto"@ {
        if memory_kb / 1000000 >= 64 {
            "4G"@
        } else if memory_kb / 1000000 >= 16 {
            "3G"@
        } else {
            "2G"@
        }
    } else {
        ram
    }
}

/// The RAM size string for the memory fragment.
pub fn set_ram_value(config: &QuickEmuConfig, memory_kb: u64) -> (r: String)
    ensures
        r@ == spec_ram_value(config.ram@, memory_kb),
{
    if str_eq(config.ram.as_str(), "auto") {
        let m = memory_kb / 1000000;
        if m >= 64 {
            String::from_str("4G")
        } else if m >= 16 {
            String::from_str("3G")
        } else {
            String::from_str("2G")
        }
    } else {
        config.ram.as_str().to_owned()
    }
}

/// The boot-menu fragment, on or off.
pub open spec fn spec_boot_menu(on: bool) -> Seq<char> {
    if on {
        "-boot menu=on"@
    } else {
        "-boot menu=off"@
    }
}

/// The boot-menu fragment.
pub fn set_boot_menu(config: &QuickEmuConfig) -> (r: String)
    ensures
        r@ == spec_boot_menu(config.boot_menu),
{
    if config.boot_menu {
        String::from_str("-boot menu=on")
    } else {
        String::from_str("-boot menu=off")
    }
}

/// The floppy fragment: empty when no floppy is configured, the drive flag
/// when the configured file exists, and the missing-file error otherwise.
pub open spec fn spec_floppy_arg(floppy: Seq<char>, exists: bool) -> Result<Seq<char>, ERRORCODES> {
    if floppy.len() == 0 {
        Ok(Seq::<char>::empty())
    } else if exists {
        Ok("-fda "@ + floppy)
    } else {
        Err(ERRORCODES::NoSuchFile)
    }
}

/// The floppy fragment; `floppy_exists` reports whether the configured path
/// names an existing file.
pub fn set_floppy(config: &QuickEmuConfig, floppy_exists: bool) -> (r: Result<String, ERRORCODES>)
    ensures
        match r {
            Ok(s) => spec_floppy_arg(config.floppy@, floppy_exists) == Ok::<Seq<char>, ERRORCODES>(
                s@,
            ),
            Err(e) => spec_floppy_arg(config.floppy@, floppy_exists) == Err::<
                Seq<char>,
                ERRORCODES,
            >(e),
        },
{
    if config.floppy.as_str().is_empty() {
        Ok(String::new())
    } else if floppy_exists {
        let mut s = String::from_str("-fda ");
        s.append(config.floppy.as_str());
        Ok(s)
    } else {
        Err(ERRORCODES::NoSuchFile)
    }
}

/// A floppy flag quoted for hand-off: empty stays empty, anything else is
/// wrapped as a quoted drive flag.
pub open spec fn spec_floppy_cmd(floppy: Seq<char>) -> Seq<char> {
    if floppy.len() != 0 {
        "-fda \""@ + floppy + "\""@
    } else {
        Seq::<char>::empty()
    }
}

/// Quote a floppy path into a drive flag; empty input yields no fragment.
pub fn set_floppy_cmd(floppy: String) -> (r: String)
    ensures
        r@ == spec_floppy_cmd(floppy@),
{
    if !floppy.as_str().is_empty() {
        let mut s = String::from_str("-fda \"");
        s.append(floppy.as_str());
        s.append("\"");
        proof {
            assert(s@ =~= spec_floppy_cmd(floppy@));
        }
        s
    } else {
        String::new()
    }
}

/// The image reference for a disk slot (the configured path, possibly
/// empty), and whether the image must still be created (a nonempty path
/// that names no existing file).
pub fn handle_disk_image(disk_img: &String, exists: bool) -> (r: (String, bool))
    ensures
        r.0@ == disk_img@,
        r.1 == (disk_img@.len() > 0 && !exists),
{
    let needs_creation = !disk_img.as_str().is_empty() && !exists;
    (disk_img.as_str().to_owned(), needs_creation)
}

/// An optical-media reference: empty when unconfigured, the path itself when
/// the file exists, and the missing-file error otherwise.
pub open spec fn spec_iso_file(iso: Seq<char>, exists: bool) -> Result<Seq<char>, ERRORCODES> {
    if iso.len() != 0 {
        if exists {
            Ok(iso)
        } else {
            Err(ERRORCODES::NoSuchFile)
        }
    } else {
        Ok(Seq::<char>::empty())
    }
}

/// Check an optical-media path; `exists` reports whether it names an
/// existing file.
pub fn set_iso_file(iso: &str, exists: bool) -> (r: Result<String, ERRORCODES>)
    ensures
        match r {
            Ok(s) => spec_iso_file(iso@, exists) == Ok::<Seq<char>, ERRORCODES>(s@),
            Err(e) => spec_iso_file(iso@, exists) == Err::<Seq<char>, ERRORCODES>(e),
        },
{
    if !iso.is_empty() {
        if exists {
            Ok(iso.to_owned())
        } else {
            Err(ERRORCODES::NoSuchFile)
        }
    } else {
        Ok(String::new())
    }
}

/// The index a CD-ROM slot is attached at: its nominal slot index, pushed
/// up by one for each populated disk slot when the disk interface is
/// IDE-tagged (optical media are numbered after IDE hard disks); no
/// adjustment otherwise.
pub open spec fn spec_cdrom_index(c: QuickEmuConfig, slot: u8) -> int {
    slot + (if spec_contains(c.disk_interface@, "ide"@) {
        (if c.disk_img@.len() > 0 {
            1int
        } else {
            0int
        }) + (if c.disk2_img@.len() > 0 {
            1int
        } else {
            0int
        })
    } else {
        0int
    })
}

/// The CD-ROM fragment for one optical slot: empty when no medium is
/// configured, else a quoted drive flag at the slot's adjusted index.
pub open spec fn spec_cdrom_cmd(c: QuickEmuConfig, cdrom: Seq<char>, slot: u8) -> Seq<char> {
    if cdrom.len() != 0 {
        "-drive media=cdrom,index="@ + spec_u64_string(spec_cdrom_index(c, slot)) + ",file=\""@
            + cdrom + "\""@
    } else {
        Seq::<char>::empty()
    }
}

/// The CD-ROM fragment for one optical slot (`0` for the install medium,
/// `1` for the driver medium).
pub fn set_cdrom_cmd(config: &QuickEmuConfig, cdrom: &String, cdrom_index: u8) -> (r: String)
    requires
        cdrom_index <= 1,
    ensures
        r@ == spec_cdrom_cmd(*config, cdrom@, cdrom_index),
{
    if !cdrom.as_str().is_empty() {
        let mut index: u8 = cdrom_index;
        if str_contains(config.disk_interface.as_str(), "ide") {
            if !config.disk_img.as_str().is_empty() {
                index = index + 1;
            }
            if !config.disk2_img.as_str().is_empty() {
                index = index + 1;
            }
        }
        let mut s = String::from_str("-drive media=cdrom,index=");
        s.append(u64_to_string(index as u64).as_str());
        s.append(",file=\"");
        s.append(cdrom.as_str());
        s.append("\"");
        proof {
            assert(s@ =~= spec_cdrom_cmd(*config, cdrom@, cdrom_index));
        }
        s
    } else {
        String::new()
    }
}

/// The `if=` value of a drive fragment: `"none"` for an absent, `"none"` or
/// SCSI-tagged interface, `"ide"` otherwise.
pub open spec fn spec_drive_if(c: QuickEmuConfig) -> Seq<char> {
    if c.disk_interface@.len() == 0 || c.disk_interface@ == "none"@ || spec_contains(
        c.disk_interface@,
        "scsi"@,
    ) {
        "none"@
    } else {
        "ide"@
    }
}

/// The drive declaration common to every attachment style.
pub open spec fn spec_drive_base(c: QuickEmuConfig, disk_img: Seq<char>, n: u8) -> Seq<char> {
    "-drive if="@ + spec_drive_if(c) + ",id=drive"@ + spec_u64_string(n as int)
        + ",cache=directsync,aio=native,format=qcow2,file=\""@ + disk_img + "\""@
}

/// The drive fragment for one disk slot. An absent, `"none"` or IDE-tagged
/// interface attaches through a virtio block device; a SCSI-tagged interface
/// requires a nonempty controller name (else the missing-controller error)
/// and declares the controller before the slot-0 drive; any other interface
/// is the unknown-controller error. An empty image reference yields no
/// fragment, but interface validation still applies.
pub open spec fn spec_drive_cmd(c: QuickEmuConfig, disk_img: Seq<char>, n: u8) -> Result<
    Seq<char>,
    ERRORCODES,
> {
    if c.disk_interface@.len() == 0 || c.disk_interface@ == "none"@ || spec_contains(
        c.disk_interface@,
        "ide"@,
    ) {
        if disk_img.len() == 0 {
            Ok(Seq::<char>::empty())
        } else {
            Ok(
                spec_drive_base(c, disk_img, n) + " -device virtio-blk-pci,drive=drive"@
                    + spec_u64_string(n as int) + ",scsi=off"@,
            )
        }
    } else if spec_contains(c.disk_interface@, "scsi"@) {
        if c.scsi_controller@.len() != 0 {
            if disk_img.len() == 0 {
                Ok(Seq::<char>::empty())
            } else {
                Ok(
                    (if n == 0 {
                        "-device "@ + c.scsi_controller@ + " "@ + spec_drive_base(c, disk_img, n)
                    } else {
                        spec_drive_base(c, disk_img, n)
                    }) + " -device scsi-hd,drive=drive"@ + spec_u64_string(n as int),
                )
            }
        } else {
            Err(ERRORCODES::ScsiControllerMissing)
        }
    } else {
        Err(ERRORCODES::UnknownDiskController)
    }
}

fn drive_base(config: &QuickEmuConfig, disk_img: &String, drive_number: u8) -> (r: String)
    ensures
        r@ == spec_drive_base(*config, disk_img@, drive_number),
{
    let iface: &str = if config.disk_interface.as_str().is_empty() || str_eq(
        config.disk_interface.as_str(),
        "none",
    ) || str_contains(config.disk_interface.as_str(), "scsi") {
        "none"
    } else {
        "ide"
    };
    let mut s = String::from_str("-drive if=");
    s.append(iface);
    s.append(",id=drive");
    s.append(u64_to_string(drive_number as u64).as_str());
    s.append(",cache=directsync,aio=native,format=qcow2,file=\"");
    s.append(disk_img.as_str());
    s.append("\"");
    proof {
        assert(s@ =~= spec_drive_base(*config, disk_img@, drive_number));
    }
    s
}

/// The drive fragment for one disk slot, specified by `spec_drive_cmd`.
pub fn set_drive_cmd(config: &QuickEmuConfig, disk_img: &String, drive_number: u8) -> (r: Result<
    String,
    ERRORCODES,
>)
    ensures
        match r {
            Ok(s) => spec_drive_cmd(*config, disk_img@, drive_number) == Ok::<
                Seq<char>,
                ERRORCODES,
            >(s@),
            Err(e) => spec_drive_cmd(*config, disk_img@, drive_number) == Err::<
                Seq<char>,
                ERRORCODES,
            >(e),
        },
{
    if config.disk_interface.as_str().is_empty() || str_eq(config.disk_interface.as_str(), "none")
        || str_contains(config.disk_interface.as_str(), "ide") {
        if disk_img.as_str().is_empty() {
            Ok(String::new())
        } else {
            let mut s = drive_base(config, disk_img, drive_number);
            s.append(" -device virtio-blk-pci,drive=drive");
            s.append(u64_to_string(drive_number as u64).as_str());
            s.append(",scsi=off");
            proof {
                assert(s@ =~= spec_drive_cmd(*config, disk_img@, drive_number)->Ok_0);
            }
            Ok(s)
        }
    } else if str_contains(config.disk_interface.as_str(), "scsi") {
        if !config.scsi_controller.as_str().is_empty() {
            if disk_img.as_str().is_empty() {
                Ok(String::new())
            } else {
                let base = drive_base(config, disk_img, drive_number);
                let mut s = if drive_number == 0 {
                    let mut t = String::from_str("-device ");
                    t.append(config.scsi_controller.as_str());
                    t.append(" ");
                    t.append(base.as_str());
                    t
                } else {
                    base
                };
                s.append(" -device scsi-hd,drive=drive");
                s.append(u64_to_string(drive_number as u64).as_str());
                proof {
                    assert(s@ =~= spec_drive_cmd(*config, disk_img@, drive_number)->Ok_0);
                }
                Ok(s)
            }
        } else {
            Err(ERRORCODES::ScsiControllerMissing)
        }
    } else {
        Err(ERRORCODES::UnknownDiskController)
    }
}

/// The video-device fragment, selected by substring match against the
/// display-device tag, in a fixed precedence; unmatched tags fall back to
/// the standard VGA device.
pub open spec fn spec_video_cmd(disp: Seq<char>, virgl: Seq<char>) -> Seq<char> {
    if spec_contains(disp, "cirrus"@) {
        if spec_contains(disp, "isa"@) {
            "-device isa-cirrus-vga"@
        } else {
            "-device cirrus-vga"@
        }
    } else if spec_contains(disp, "bochs"@) {
        "-device bochs-display"@
    } else if spec_contains(disp, "ati"@) {
        "-device ati-vga"@
    } else if spec_contains(disp, "vmware"@) {
        "-device vmware-svga"@
    } else if spec_contains(disp, "qxl"@) {
        "-device qxl-vga"@
    } else if spec_contains(disp, "virtio"@) {
        "-device virtio-vga,virgl="@ + virgl
    } else if spec_contains(disp, "vga"@) {
        if spec_contains(disp, "isa"@) {
            "-device isa-vga"@
        } else {
            "-device VGA,vgamem_mb=128"@
        }
    } else {
        "-device VGA,vgamem_mb=128"@
    }
}

/// The video-device fragment, specified by `spec_video_cmd`.
pub fn set_video_cmd(disp: String, virgl: String) -> (r: String)
    ensures
        r@ == spec_video_cmd(disp@, virgl@),
{
    if str_contains(disp.as_str(), "cirrus") {
        if str_contains(disp.as_str(), "isa") {
            String::from_str("-device isa-cirrus-vga")
        } else {
            String::from_str("-device cirrus-vga")
        }
    } else if str_contains(disp.as_str(), "bochs") {
        String::from_str("-device bochs-display")
    } else if str_contains(disp.as_str(), "ati") {
        String::from_str("-device ati-vga")
    } else if str_contains(disp.as_str(), "vmware") {
        String::from_str("-device vmware-svga")
    } else if str_contains(disp.as_str(), "qxl") {
        String::from_str("-device qxl-vga")
    } else if str_contains(disp.as_str(), "virtio") {
        let mut s = String::from_str("-device virtio-vga,virgl=");
        s.append(virgl.as_str());
        s
    } else if str_contains(disp.as_str(), "vga") {
        if str_contains(disp.as_str(), "isa") {
            String::from_str("-device isa-vga")
        } else {
            String::from_str("-device VGA,vgamem_mb=128")
        }
    } else {
        String::from_str("-device VGA,vgamem_mb=128")
    }
}

/// The graphics-acceleration mode of the display backend: the `"curses"`
/// backend forces it off, the `"gtk"` backend turns an enabled toggle into
/// its `"es"` variant, and otherwise the toggle maps to `"on"`/`"off"`.
pub open spec fn spec_gl_mode(c: QuickEmuConfig) -> Seq<char> {
    if c.output@ == "curses"@ {
        "off"@
    } else if c.output@ == "gtk"@ && c.gl {
        "es"@
    } else if c.gl {
        "on"@
    } else {
        "off"@
    }
}

/// The backend-specific extra options of the display line (the `"gtk"`
/// backend adds hover-grab and zoom-to-fit).
pub open spec fn spec_base_output_extras(c: QuickEmuConfig) -> Seq<char> {
    if c.output@ == "gtk"@ {
        ",grab-on-hover=on,zoom-to-fit=on"@
    } else {
        Seq::<char>::empty()
    }
}

/// A user-supplied extras literal appended after the backend's own extras,
/// with a separating comma inserted only when the literal does not already
/// start with one.
pub open spec fn spec_appended_extras(c: QuickEmuConfig, base: Seq<char>) -> Seq<char> {
    if c.output_extras@.len() != 0 {
        base + (if spec_starts_with(c.output_extras@, ","@) {
            c.output_extras@
        } else {
            ","@ + c.output_extras@
        })
    } else {
        base
    }
}

/// The display line's extra options after appending the user's literal,
/// specified by `spec_appended_extras`.
pub fn set_output_extras(config: &QuickEmuConfig, output_extras: &String) -> (r: String)
    ensures
        r@ == spec_appended_extras(*config, output_extras@),
{
    if !config.output_extras.as_str().is_empty() {
        let mut s = output_extras.as_str().to_owned();
        if str_starts_with(config.output_extras.as_str(), ",") {
            s.append(config.output_extras.as_str());
        } else {
            s.append(",");
            s.append(config.output_extras.as_str());
        }
        proof {
            assert(s@ =~= spec_appended_extras(*config, output_extras@));
        }
        s
    } else {
        output_extras.as_str().to_owned()
    }
}

/// The complete extra options of the display line.
pub open spec fn spec_output_extras_arg(c: QuickEmuConfig) -> Seq<char> {
    spec_appended_extras(c, spec_base_output_extras(c))
}

/// The acceleration mode, backend name and extra options of the display
/// line.
pub fn get_output_gl_virgl(config: &QuickEmuConfig) -> (r: Result<
    (String, String, String),
    ERRORCODES,
>)
    ensures
        match r {
            Ok(t) => t.0@ == spec_gl_mode(*config) && t.1@ == config.output@ && t.2@
                == spec_output_extras_arg(*config),
            Err(_) => false,
        },
{
    let gl: String = if str_eq(config.output.as_str(), "curses") {
        String::from_str("off")
    } else if str_eq(config.output.as_str(), "gtk") && config.gl {
        String::from_str("es")
    } else if config.gl {
        String::from_str("on")
    } else {
        String::from_str("off")
    };
    let base: String = if str_eq(config.output.as_str(), "gtk") {
        String::from_str(",grab-on-hover=on,zoom-to-fit=on")
    } else {
        String::new()
    };
    let output_extras = set_output_extras(config, &base);
    let output = config.output.as_str().to_owned();
    Ok((gl, output, output_extras))
}

/// The audio fragment: the backend declaration, the local backend's server
/// socket and stream names under the runtime directory plus its device
/// declaration, an extra duplex-mixer device for HD-audio family tags, and
/// the backend reference.
pub open spec fn spec_audio_arg(c: QuickEmuConfig, xdg: Seq<char>) -> Seq<char> {
    (if spec_contains(c.audio@, "hda"@) || spec_contains(c.audio@, "intel"@) {
        spec_audio_head(c, xdg) + " -device hda-duplex,mixer=off"@
    } else {
        spec_audio_head(c, xdg)
    }) + ",audiodev="@ + c.audio_output@
}

/// The audio fragment before the duplex-mixer device and backend reference.
pub open spec fn spec_audio_head(c: QuickEmuConfig, xdg: Seq<char>) -> Seq<char> {
    (if c.audio_output@ == "pa"@ {
        "-audiodev "@ + c.audio_output@ + ",id="@ + c.audio_output@ + ",server=unix:"@ + xdg
            + "/pulse/native,out.stream-name="@ + c.launcher@ + "-"@ + c.vmname@
            + ",in.stream-name="@ + c.launcher@ + "-"@ + c.vmname@ + " -device "@ + c.audio@
    } else {
        "-audiodev "@ + c.audio_output@ + ",id="@ + c.audio_output@
    })
}

/// The audio fragment, specified by `spec_audio_arg`; `xdg` is the per-user
/// runtime directory.
pub fn set_audio_cmd(config: &QuickEmuConfig, xdg: &str) -> (r: String)
    ensures
        r@ == spec_audio_arg(*config, xdg@),
{
    let mut s = String::from_str("-audiodev ");
    s.append(config.audio_output.as_str());
    s.append(",id=");
    s.append(config.audio_output.as_str());
    if str_eq(config.audio_output.as_str(), "pa") {
        s.append(",server=unix:");
        s.append(xdg);
        s.append("/pulse/native,out.stream-name=");
        s.append(config.launcher.as_str());
        s.append("-");
        s.append(config.vmname.as_str());
        s.append(",in.stream-name=");
        s.append(config.launcher.as_str());
        s.append("-");
        s.append(config.vmname.as_str());
        s.append(" -device ");
        s.append(config.audio.as_str());
    }
    proof {
        assert(s@ =~= spec_audio_head(*config, xdg@));
    }
    if str_contains(config.audio.as_str(), "hda") || str_contains(config.audio.as_str(), "intel") {
        s.append(" -device hda-duplex,mixer=off");
    }
    s.append(",audiodev=");
    s.append(config.audio_output.as_str());
    proof {
        assert(s@ =~= spec_audio_arg(*config, xdg@));
    }
    s
}

/// The plain host facts that synthesis consults: total memory, physical
/// core count, the per-user runtime directory lookup's outcome, the probe
/// outcomes for the five remote-display ports after the well-known base
/// port, and whether each configured file exists on disk.
#[derive(Debug)]
pub struct HostInfo {
    pub memory_kb: u64,
    pub physical_cores: usize,
    pub runtime_dir: Result<String, ERRORCODES>,
    pub ports_taken: Vec<bool>,
    pub iso_exists: bool,
    pub driver_iso_exists: bool,
    pub floppy_exists: bool,
    pub disk_img_exists: bool,
    pub disk2_img_exists: bool,
}

/// The process-name fragment.
pub open spec fn spec_name_arg(c: QuickEmuConfig) -> Seq<char> {
    "-name "@ + c.vmname@ + ",process="@ + c.vmname@
}

/// The acceleration/CPU/machine line.
pub open spec fn spec_machine_line(c: QuickEmuConfig) -> Seq<char> {
    spec_kvm_arg(c) + " "@ + spec_cpu_arg(c) + " -machine "@ + spec_machine_arg(c)
}

/// The SMP topology line for the chosen core count.
pub open spec fn spec_smp_line(c: QuickEmuConfig, physical: usize) -> Seq<char> {
    "-smp "@ + spec_u64_string(spec_cpu_cores(c.cpu_cores, physical) as int) + ",sockets=1,cores="@
        + spec_u64_string(spec_cpu_cores(c.cpu_cores, physical) as int) + ",threads=1"@
}

/// The memory-size line.
pub open spec fn spec_ram_line(c: QuickEmuConfig, memory_kb: u64) -> Seq<char> {
    "-m "@ + spec_ram_value(c.ram@, memory_kb)
}

/// The display line: the video device, the backend, the acceleration mode
/// and the extra options.
pub open spec fn spec_display_line(c: QuickEmuConfig) -> Seq<char> {
    spec_video_cmd(c.display_device@, "on"@) + " -display "@ + c.output@ + ",gl="@ + spec_gl_mode(c)
        + spec_output_extras_arg(c)
}

/// The real-time-clock fragment, present exactly when the clock is enabled,
/// fixed to localtime/host-clock mode.
pub open spec fn spec_rtc_arg(c: QuickEmuConfig) -> Seq<char> {
    if c.rtc {
        "-rtc base=localtime,clock=host"@
    } else {
        Seq::<char>::empty()
    }
}

/// The remote-display fragment: present exactly when the remote-display
/// toggle is on and the port search found a free port; omitted, not fatal,
/// otherwise.
pub open spec fn spec_spice_arg(c: QuickEmuConfig, taken: Seq<bool>) -> Seq<char> {
    match spec_find_open_socket(5900u16, taken) {
        Ok(p) => {
            if c.spice {
                "-spice port="@ + spec_u64_string(p as int) + ",disable-ticketing"@
            } else {
                Seq::<char>::empty()
            }
        },
        Err(_) => Seq::<char>::empty(),
    }
}

/// The whole fragment sequence, in emission order, or the first fatal
/// error: a configured but missing floppy or optical file, an invalid disk
/// interface (a SCSI tag without a controller name, or an unrecognized
/// tag), or a failed runtime-directory lookup.
pub open spec fn spec_build_config(c: QuickEmuConfig, h: HostInfo) -> Result<
    Seq<Seq<char>>,
    ERRORCODES,
> {
    let floppy = spec_floppy_arg(c.floppy@, h.floppy_exists);
    let drive1 = spec_drive_cmd(c, c.disk_img@, 0);
    let drive2 = spec_drive_cmd(c, c.disk2_img@, 1);
    let cdrom = spec_iso_file(c.iso@, h.iso_exists);
    let cdrom2 = spec_iso_file(c.driver_iso@, h.driver_iso_exists);
    if floppy is Err {
        Err(floppy->Err_0)
    } else if drive1 is Err {
        Err(drive1->Err_0)
    } else if drive2 is Err {
        Err(drive2->Err_0)
    } else if cdrom is Err {
        Err(cdrom->Err_0)
    } else if cdrom2 is Err {
        Err(cdrom2->Err_0)
    } else {
        match h.runtime_dir {
            Err(e) => Err(e),
            Ok(xdg) => Ok(
                seq![
                    spec_name_arg(c),
                    spec_machine_line(c),
                    spec_smp_line(c, h.physical_cores),
                    spec_ram_line(c, h.memory_kb),
                    spec_boot_menu(c.boot_menu),
                    spec_display_line(c),
                    spec_video_cmd(c.display_device@, "on"@),
                    floppy->Ok_0,
                    drive1->Ok_0,
                    drive2->Ok_0,
                    spec_cdrom_cmd(c, cdrom->Ok_0, 0),
                    spec_cdrom_cmd(c, cdrom2->Ok_0, 1),
                    spec_rtc_arg(c),
                    spec_audio_arg(c, xdg@),
                    spec_spice_arg(c, h.ports_taken@),
                ],
            ),
        }
    }
}

/// Synthesize the ordered command-line fragments for a resolved record,
/// consulting only the host facts in `host`. The sequence and the error
/// cases are specified by `spec_build_config`.
#[verifier::rlimit(100)]
pub fn build_config(config: &QuickEmuConfig, host: &HostInfo) -> (r: Result<Vec<String>, ERRORCODES>)
    requires
        host.ports_taken@.len() == 5,
    ensures
        match r {
            Ok(v) => spec_build_config(*config, *host) == Ok::<Seq<Seq<char>>, ERRORCODES>(
                v.deep_view(),
            ),
            Err(e) => spec_build_config(*config, *host) == Err::<Seq<Seq<char>>, ERRORCODES>(e),
        },
{
    let (cpu, machine, kvm) = match set_cpu_cmd(config) {
        Ok(t) => t,
        Err(e) => {
            return Err(e);
        },
    };
    let cpu_cores = set_cpu_cores(config, host.physical_cores);
    let ram = set_ram_value(config, host.memory_kb);
    let floppy = match set_floppy(config, host.floppy_exists) {
        Ok(s) => s,
        Err(e) => {
            return Err(e);
        },
    };
    let boot_menu = set_boot_menu(config);
    let drive_cmd = match set_drive_cmd(config, &config.disk_img, 0) {
        Ok(s) => s,
        Err(e) => {
            return Err(e);
        },
    };
    let drive2_cmd = match set_drive_cmd(config, &config.disk2_img, 1) {
        Ok(s) => s,
        Err(e) => {
            return Err(e);
        },
    };
    let cdrom = match set_iso_file(config.iso.as_str(), host.iso_exists) {
        Ok(s) => s,
        Err(e) => {
            return Err(e);
        },
    };
    let driver_cdrom = match set_iso_file(config.driver_iso.as_str(), host.driver_iso_exists) {
        Ok(s) => s,
        Err(e) => {
            return Err(e);
        },
    };
    let cdrom_cmd = set_cdrom_cmd(config, &cdrom, 0);
    let cdrom2_cmd = set_cdrom_cmd(config, &driver_cdrom, 1);
    let video_cmd = set_video_cmd(config.display_device.as_str().to_owned(), String::from_str("on"));
    let (gl, output, output_extras) = match get_output_gl_virgl(config) {
        Ok(t) => t,
        Err(e) => {
            return Err(e);
        },
    };
    let rtc: String = if config.rtc {
        String::from_str("-rtc base=localtime,clock=host")
    } else {
        String::new()
    };
    let xdg: String = match &host.runtime_dir {
        Ok(s) => s.clone(),
        Err(e) => {
            return Err(*e);
        },
    };
    let audio_output = set_audio_cmd(config, xdg.as_str());
    let spice_port: String = match find_open_socket(5900, &host.ports_taken) {
        Ok(p) => {
            if config.spice {
                let mut s = String::from_str("-spice port=");
                s.append(u64_to_string(p as u64).as_str());
                s.append(",disable-ticketing");
                proof {
                    assert(s@ =~= spec_spice_arg(*config, host.ports_taken@));
                }
                s
            } else {
                String::new()
            }
        },
        Err(_) => String::new(),
    };

    let mut vec: Vec<String> = Vec::new();
    let mut name_arg = String::from_str("-name ");
    name_arg.append(config.vmname.as_str());
    name_arg.append(",process=");
    name_arg.append(config.vmname.as_str());
    proof {
        assert(name_arg@ =~= spec_name_arg(*config));
    }
    vec.push(name_arg);

    let mut machine_line = kvm;
    machine_line.append(" ");
    machine_line.append(cpu.as_str());
    machine_line.append(" -machine ");
    machine_line.append(machine.as_str());
    proof {
        assert(machine_line@ =~= spec_machine_line(*config));
    }
    vec.push(machine_line);

    let cores_str = u64_to_string(cpu_cores as u64);
    let mut smp_line = String::from_str("-smp ");
    smp_line.append(cores_str.as_str());
    smp_line.append(",sockets=1,cores=");
    smp_line.append(cores_str.as_str());
    smp_line.append(",threads=1");
    proof {
        assert(smp_line@ =~= spec_smp_line(*config, host.physical_cores));
    }
    vec.push(smp_line);

    let mut ram_line = String::from_str("-m ");
    ram_line.append(ram.as_str());
    proof {
        assert(ram_line@ =~= spec_ram_line(*config, host.memory_kb));
    }
    vec.push(ram_line);

    vec.push(boot_menu);

    let mut display_line = video_cmd.as_str().to_owned();
    display_line.append(" -display ");
    display_line.append(output.as_str());
    display_line.append(",gl=");
    display_line.append(gl.as_str());
    display_line.append(output_extras.as_str());
    proof {
        assert(display_line@ =~= spec_display_line(*config));
    }
    vec.push(display_line);

    vec.push(video_cmd);
    vec.push(floppy);
    vec.push(drive_cmd);
    vec.push(drive2_cmd);
    vec.push(cdrom_cmd);
    vec.push(cdrom2_cmd);
    vec.push(rtc);
    vec.push(audio_output);
    vec.push(spice_port);

    proof {
        assert(vec.deep_view().len() == 15);
        assert(vec.deep_view()[0] == spec_name_arg(*config));
        assert(vec.deep_view()[1] == spec_machine_line(*config));
        assert(vec.deep_view()[2] == spec_smp_line(*config, host.physical_cores));
        assert(vec.deep_view()[3] == spec_ram_line(*config, host.memory_kb));
        assert(vec.deep_view()[4] == spec_boot_menu(config.boot_menu));
        assert(vec.deep_view()[5] == spec_display_line(*config));
        assert(vec.deep_view()[6] == spec_video_cmd(config.display_device@, "on"@));
        assert(vec.deep_view()[7] == spec_floppy_arg(config.floppy@, host.floppy_exists)->Ok_0);
        assert(vec.deep_view()[8] == spec_drive_cmd(*config, config.disk_img@, 0)->Ok_0);
        assert(vec.deep_view()[9] == spec_drive_cmd(*config, config.disk2_img@, 1)->Ok_0);
        assert(vec.deep_view()[10] == spec_cdrom_cmd(
            *config,
            spec_iso_file(config.iso@, host.iso_exists)->Ok_0,
            0,
        ));
        assert(vec.deep_view()[11] == spec_cdrom_cmd(
            *config,
            spec_iso_file(config.driver_iso@, host.driver_iso_exists)->Ok_0,
            1,
        ));
        assert(vec.deep_view()[12] == spec_rtc_arg(*config));
        assert(vec.deep_view()[13] == spec_audio_arg(*config, host.runtime_dir->Ok_0@));
        assert(vec.deep_view()[14] == spec_spice_arg(*config, host.ports_taken@));
        assert(vec.deep_view() =~= spec_build_config(*config, *host)->Ok_0);
    }
    Ok(vec)
}

} // verus!

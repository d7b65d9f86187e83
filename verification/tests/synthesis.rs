// Synthesis behavior: each fragment function, the machine-profile override,
// the SCSI precondition, CD-ROM indexing, the automatic RAM buckets, and the
// two end-to-end scenarios.

use slquickemu::options::get_empty_config;
use slquickemu::resolve::{resolve_config, QuickEmuConfig};
use slquickemu::synth::{
    build_config, get_output_gl_virgl, handle_disk_image, set_boot_menu, set_cdrom_cmd,
    set_cpu_cmd, set_cpu_cores, set_drive_cmd, set_floppy, set_floppy_cmd, set_iso_file,
    set_output_extras, set_ram_value, set_video_cmd, HostInfo,
};
use slquickemu::ERRORCODES;

fn default_config() -> QuickEmuConfig {
    resolve_config(None, None, get_empty_config(), "vm")
}

fn default_host() -> HostInfo {
    HostInfo {
        memory_kb: 8_000_000,
        physical_cores: 4,
        runtime_dir: Ok("/run/user/1000".to_string()),
        ports_taken: vec![false, false, false, false, false],
        iso_exists: false,
        driver_iso_exists: false,
        floppy_exists: false,
        disk_img_exists: false,
        disk2_img_exists: false,
    }
}

#[test]
fn cpu_cmd_wraps_unprefixed_spec() {
    let mut c = default_config();
    c.cpu = "host".to_string();
    let (cpu, machine, kvm) = set_cpu_cmd(&c).unwrap();
    assert_eq!(cpu, "-cpu host");
    assert_eq!(machine, "q35");
    assert_eq!(kvm, "-enable-kvm");

    c.cpu = "-cpu host,kvm=on".to_string();
    c.kvm = false;
    let (cpu, _, kvm) = set_cpu_cmd(&c).unwrap();
    assert_eq!(cpu, "-cpu host,kvm=on");
    assert_eq!(kvm, "");
}

#[test]
fn machine_profile_isa_override_always_wins() {
    let mut c = default_config();
    c.machine = "pc-i440fx".to_string();
    c.display_device = "isa-vga".to_string();
    let (_, machine, _) = set_cpu_cmd(&c).unwrap();
    assert_eq!(machine, "isapc");

    let mut c2 = default_config();
    c2.machine = "q35".to_string();
    c2.disk_interface = "isa-something".to_string();
    let (_, machine2, _) = set_cpu_cmd(&c2).unwrap();
    assert_eq!(machine2, "isapc");

    let mut c3 = default_config();
    c3.machine = "pc".to_string();
    let (_, machine3, _) = set_cpu_cmd(&c3).unwrap();
    assert_eq!(machine3, "pc");
}

#[test]
fn cpu_cores_auto_selection() {
    let mut c = default_config();
    c.cpu_cores = 0;
    assert_eq!(set_cpu_cores(&c, 8), 4);
    assert_eq!(set_cpu_cores(&c, 16), 4);
    assert_eq!(set_cpu_cores(&c, 7), 2);
    assert_eq!(set_cpu_cores(&c, 1), 2);
    c.cpu_cores = 6;
    assert_eq!(set_cpu_cores(&c, 1), 6);
}

#[test]
fn auto_ram_boundaries() {
    let mut c = default_config();
    c.ram = "auto".to_string();
    assert_eq!(set_ram_value(&c, 64_000_000), "4G");
    assert_eq!(set_ram_value(&c, 63_999_999), "3G");
    assert_eq!(set_ram_value(&c, 16_000_000), "3G");
    assert_eq!(set_ram_value(&c, 15_999_999), "2G");
    assert_eq!(set_ram_value(&c, 0), "2G");
    c.ram = "8G".to_string();
    assert_eq!(set_ram_value(&c, 64_000_000), "8G");
}

#[test]
fn boot_menu_fragment() {
    let mut c = default_config();
    c.boot_menu = true;
    assert_eq!(set_boot_menu(&c), "-boot menu=on");
    c.boot_menu = false;
    assert_eq!(set_boot_menu(&c), "-boot menu=off");
}

#[test]
fn floppy_checks_existence() {
    let mut c = default_config();
    assert_eq!(set_floppy(&c, false), Ok(String::new()));
    c.floppy = "/tmp/boot.img".to_string();
    assert_eq!(set_floppy(&c, true), Ok("-fda /tmp/boot.img".to_string()));
    assert_eq!(set_floppy(&c, false), Err(ERRORCODES::NoSuchFile));
}

#[test]
fn floppy_cmd_quotes_path() {
    assert_eq!(set_floppy_cmd("a.img".to_string()), "-fda \"a.img\"");
    assert_eq!(set_floppy_cmd(String::new()), "");
}

#[test]
fn disk_image_creation_decision() {
    let (r, create) = handle_disk_image(&"/tmp/disk.qcow2".to_string(), false);
    assert_eq!(r, "/tmp/disk.qcow2");
    assert!(create);
    let (r2, create2) = handle_disk_image(&"/tmp/disk.qcow2".to_string(), true);
    assert_eq!(r2, "/tmp/disk.qcow2");
    assert!(!create2);
    let (r3, create3) = handle_disk_image(&String::new(), false);
    assert_eq!(r3, "");
    assert!(!create3);
}

#[test]
fn iso_file_checks_existence() {
    assert_eq!(set_iso_file("", false), Ok(String::new()));
    assert_eq!(set_iso_file("/tmp/x.iso", true), Ok("/tmp/x.iso".to_string()));
    assert_eq!(set_iso_file("/tmp/x.iso", false), Err(ERRORCODES::NoSuchFile));
}

#[test]
fn cdrom_indexing_ide_counts_disks() {
    let mut c = default_config();
    c.disk_interface = "ide".to_string();
    c.disk_img = "/tmp/a.qcow2".to_string();
    c.disk2_img = "/tmp/b.qcow2".to_string();
    let iso = "/tmp/x.iso".to_string();
    assert_eq!(
        set_cdrom_cmd(&c, &iso, 0),
        "-drive media=cdrom,index=2,file=\"/tmp/x.iso\""
    );
    assert_eq!(
        set_cdrom_cmd(&c, &iso, 1),
        "-drive media=cdrom,index=3,file=\"/tmp/x.iso\""
    );
    c.disk2_img = String::new();
    assert_eq!(
        set_cdrom_cmd(&c, &iso, 0),
        "-drive media=cdrom,index=1,file=\"/tmp/x.iso\""
    );
}

#[test]
fn cdrom_indexing_non_ide_keeps_nominal_index() {
    let mut c = default_config();
    c.disk_interface = "none".to_string();
    c.disk_img = "/tmp/a.qcow2".to_string();
    c.disk2_img = "/tmp/b.qcow2".to_string();
    let iso = "/tmp/x.iso".to_string();
    assert_eq!(
        set_cdrom_cmd(&c, &iso, 0),
        "-drive media=cdrom,index=0,file=\"/tmp/x.iso\""
    );
    assert_eq!(set_cdrom_cmd(&c, &String::new(), 0), "");
}

#[test]
fn drive_cmd_virtio_attachment() {
    let mut c = default_config();
    c.disk_interface = "none".to_string();
    let img = "/tmp/a.qcow2".to_string();
    assert_eq!(
        set_drive_cmd(&c, &img, 0).unwrap(),
        "-drive if=none,id=drive0,cache=directsync,aio=native,format=qcow2,file=\"/tmp/a.qcow2\" -device virtio-blk-pci,drive=drive0,scsi=off"
    );
    c.disk_interface = "ide".to_string();
    assert_eq!(
        set_drive_cmd(&c, &img, 1).unwrap(),
        "-drive if=ide,id=drive1,cache=directsync,aio=native,format=qcow2,file=\"/tmp/a.qcow2\" -device virtio-blk-pci,drive=drive1,scsi=off"
    );
    // An empty slot yields no drive fragment.
    assert_eq!(set_drive_cmd(&c, &String::new(), 0).unwrap(), "");
}

#[test]
fn drive_cmd_scsi_attachment() {
    let mut c = default_config();
    c.disk_interface = "scsi".to_string();
    c.scsi_controller = "lsi".to_string();
    let img = "/tmp/a.qcow2".to_string();
    assert_eq!(
        set_drive_cmd(&c, &img, 0).unwrap(),
        "-device lsi -drive if=none,id=drive0,cache=directsync,aio=native,format=qcow2,file=\"/tmp/a.qcow2\" -device scsi-hd,drive=drive0"
    );
    // The controller declaration is emitted only at slot 0.
    assert_eq!(
        set_drive_cmd(&c, &img, 1).unwrap(),
        "-drive if=none,id=drive1,cache=directsync,aio=native,format=qcow2,file=\"/tmp/a.qcow2\" -device scsi-hd,drive=drive1"
    );
}

#[test]
fn drive_cmd_scsi_requires_controller() {
    let mut c = default_config();
    c.disk_interface = "scsi".to_string();
    c.scsi_controller = String::new();
    let img = "/tmp/a.qcow2".to_string();
    assert_eq!(set_drive_cmd(&c, &img, 0), Err(ERRORCODES::ScsiControllerMissing));
    // Even an empty slot fails: interface validation precedes slot omission.
    assert_eq!(
        set_drive_cmd(&c, &String::new(), 0),
        Err(ERRORCODES::ScsiControllerMissing)
    );
}

#[test]
fn drive_cmd_unknown_interface() {
    let mut c = default_config();
    c.disk_interface = "virtio".to_string();
    assert_eq!(
        set_drive_cmd(&c, &"/tmp/a.qcow2".to_string(), 0),
        Err(ERRORCODES::UnknownDiskController)
    );
}

#[test]
fn video_device_precedence() {
    let on = || "on".to_string();
    assert_eq!(set_video_cmd("cirrus".to_string(), on()), "-device cirrus-vga");
    assert_eq!(set_video_cmd("isa-cirrus".to_string(), on()), "-device isa-cirrus-vga");
    assert_eq!(set_video_cmd("bochs".to_string(), on()), "-device bochs-display");
    assert_eq!(set_video_cmd("ati".to_string(), on()), "-device ati-vga");
    assert_eq!(set_video_cmd("vmware".to_string(), on()), "-device vmware-svga");
    assert_eq!(set_video_cmd("qxl".to_string(), on()), "-device qxl-vga");
    assert_eq!(set_video_cmd("virtio".to_string(), on()), "-device virtio-vga,virgl=on");
    assert_eq!(set_video_cmd("isa-vga".to_string(), on()), "-device isa-vga");
    assert_eq!(set_video_cmd("vga".to_string(), on()), "-device VGA,vgamem_mb=128");
    assert_eq!(set_video_cmd("unknown".to_string(), on()), "-device VGA,vgamem_mb=128");
    // The first matching family in the fixed order wins.
    assert_eq!(set_video_cmd("cirrus-vga".to_string(), on()), "-device cirrus-vga");
}

#[test]
fn output_gl_modes() {
    let mut c = default_config();
    c.output = "sdl".to_string();
    c.gl = true;
    let (gl, output, extras) = get_output_gl_virgl(&c).unwrap();
    assert_eq!((gl.as_str(), output.as_str(), extras.as_str()), ("on", "sdl", ""));

    c.gl = false;
    let (gl, _, _) = get_output_gl_virgl(&c).unwrap();
    assert_eq!(gl, "off");

    c.output = "gtk".to_string();
    c.gl = true;
    let (gl, _, extras) = get_output_gl_virgl(&c).unwrap();
    assert_eq!(gl, "es");
    assert_eq!(extras, ",grab-on-hover=on,zoom-to-fit=on");

    c.output = "curses".to_string();
    let (gl, _, _) = get_output_gl_virgl(&c).unwrap();
    assert_eq!(gl, "off");
}

#[test]
fn user_extras_get_separator_only_when_needed() {
    let mut c = default_config();
    c.output_extras = "window-close=off".to_string();
    let base = String::new();
    assert_eq!(set_output_extras(&c, &base), ",window-close=off");
    c.output_extras = ",window-close=off".to_string();
    assert_eq!(set_output_extras(&c, &base), ",window-close=off");
    c.output_extras = String::new();
    assert_eq!(set_output_extras(&c, &"base".to_string()), "base");
}

#[test]
fn end_to_end_iso_only() {
    let mut vm = get_empty_config();
    vm.iso = Some("/tmp/x.iso".to_string());
    let c = resolve_config(None, None, vm, "vm");
    let mut host = default_host();
    host.iso_exists = true;
    let frags = build_config(&c, &host).unwrap();
    assert_eq!(frags.len(), 15);
    assert_eq!(frags[0], "-name vm,process=vm");
    assert_eq!(frags[1], "-enable-kvm -cpu host,kvm=on -machine q35");
    assert_eq!(frags[2], "-smp 2,sockets=1,cores=2,threads=1");
    assert_eq!(frags[3], "-m 2G");
    assert_eq!(frags[4], "-boot menu=off");
    assert_eq!(frags[5], "-device VGA,vgamem_mb=128 -display sdl,gl=on");
    assert_eq!(frags[6], "-device VGA,vgamem_mb=128");
    assert_eq!(frags[7], "");
    // No drive fragment for an unset disk image.
    assert_eq!(frags[8], "");
    assert_eq!(frags[9], "");
    assert!(!frags.iter().any(|f| f.contains("-drive if=")));
    // The CD-ROM sits at index 0.
    assert_eq!(frags[10], "-drive media=cdrom,index=0,file=\"/tmp/x.iso\"");
    assert_eq!(frags[11], "");
    assert_eq!(frags[12], "-rtc base=localtime,clock=host");
    assert_eq!(
        frags[13],
        "-audiodev pa,id=pa,server=unix:/run/user/1000/pulse/native,out.stream-name=slquickemu-vm,in.stream-name=slquickemu-vm -device intel-hda -device hda-duplex,mixer=off,audiodev=pa"
    );
    assert_eq!(frags[14], "-spice port=5901,disable-ticketing");
}

#[test]
fn end_to_end_scsi_without_controller_fails() {
    let mut vm = get_empty_config();
    vm.iso = Some("/tmp/x.iso".to_string());
    vm.disk_interface = Some("scsi".to_string());
    let c = resolve_config(None, None, vm, "vm");
    let mut host = default_host();
    host.iso_exists = true;
    assert_eq!(build_config(&c, &host), Err(ERRORCODES::ScsiControllerMissing));
}

#[test]
fn synthesis_is_idempotent() {
    let mut vm = get_empty_config();
    vm.iso = Some("/tmp/x.iso".to_string());
    let c = resolve_config(None, None, vm, "vm");
    let mut h1 = default_host();
    h1.iso_exists = true;
    let mut h2 = default_host();
    h2.iso_exists = true;
    assert_eq!(build_config(&c, &h1), build_config(&c, &h2));
}

#[test]
fn missing_runtime_dir_is_fatal() {
    let c = default_config();
    let mut host = default_host();
    host.runtime_dir = Err(ERRORCODES::MissingXdgRuntime);
    assert_eq!(build_config(&c, &host), Err(ERRORCODES::MissingXdgRuntime));
    host.runtime_dir = Err(ERRORCODES::MissingXdgConfig);
    assert_eq!(build_config(&c, &host), Err(ERRORCODES::MissingXdgConfig));
}

#[test]
fn missing_iso_is_fatal() {
    let mut vm = get_empty_config();
    vm.iso = Some("/nonexistent.iso".to_string());
    let c = resolve_config(None, None, vm, "vm");
    let host = default_host();
    assert_eq!(build_config(&c, &host), Err(ERRORCODES::NoSuchFile));
}

#[test]
fn no_free_port_omits_spice_fragment() {
    let c = default_config();
    let mut host = default_host();
    host.ports_taken = vec![true, true, true, true, true];
    let frags = build_config(&c, &host).unwrap();
    assert_eq!(frags[14], "");
}

#[test]
fn spice_toggle_off_omits_fragment() {
    let mut vm = get_empty_config();
    vm.spice = Some(false);
    let c = resolve_config(None, None, vm, "vm");
    let host = default_host();
    let frags = build_config(&c, &host).unwrap();
    assert_eq!(frags[14], "");
}

#[test]
fn rtc_toggle_controls_fragment() {
    let mut vm = get_empty_config();
    vm.rtc = Some(false);
    let c = resolve_config(None, None, vm, "vm");
    let host = default_host();
    let frags = build_config(&c, &host).unwrap();
    assert_eq!(frags[12], "");
}

#[test]
fn non_pa_audio_backend_skips_server_parameters() {
    let mut vm = get_empty_config();
    vm.audio_output = Some("alsa".to_string());
    vm.audio = Some("ac97".to_string());
    let c = resolve_config(None, None, vm, "vm");
    let host = default_host();
    let frags = build_config(&c, &host).unwrap();
    assert_eq!(frags[13], "-audiodev alsa,id=alsa,audiodev=alsa");
}

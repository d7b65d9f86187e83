// Resolution behavior: layer precedence, built-in defaults, guest-OS tag
// selection, fallback naming, idempotence, and file-format classification.

use slquickemu::options::{get_empty_config, merge_options, QuickEmuConfigOptions};
use slquickemu::paths::{check_config_extension, get_extension_from_file, vmname_fallback};
use slquickemu::resolve::{guest_os_of, resolve_config};
use slquickemu::ERRORCODES;

fn opts() -> QuickEmuConfigOptions {
    get_empty_config()
}

#[test]
fn empty_config_has_no_fields_set() {
    let o = opts();
    assert!(o.vmname.is_none());
    assert!(o.cpu.is_none());
    assert!(o.kvm.is_none());
    assert!(o.cpu_cores.is_none());
    assert!(o.disk_interface.is_none());
    assert!(o.qemu_img_path.is_none());
}

#[test]
fn merge_prefers_higher_layer_per_field() {
    let mut lower = opts();
    lower.cpu = Some("low-cpu".to_string());
    lower.ram = Some("low-ram".to_string());
    let mut higher = opts();
    higher.cpu = Some("high-cpu".to_string());
    let merged = merge_options(lower, higher);
    assert_eq!(merged.cpu.as_deref(), Some("high-cpu"));
    assert_eq!(merged.ram.as_deref(), Some("low-ram"));
}

#[test]
fn four_layer_precedence_per_field() {
    // machine: set in every layer -> VM file wins.
    // ram: set in tweak and defaults -> tweak wins.
    // cpu: set only in defaults -> defaults win.
    // output: set nowhere -> built-in default.
    let mut defaults = opts();
    defaults.machine = Some("d-machine".to_string());
    defaults.ram = Some("d-ram".to_string());
    defaults.cpu = Some("d-cpu".to_string());
    let mut tweak = opts();
    tweak.machine = Some("t-machine".to_string());
    tweak.ram = Some("t-ram".to_string());
    let mut vm = opts();
    vm.machine = Some("v-machine".to_string());
    let c = resolve_config(Some(defaults), Some(tweak), vm, "fallback");
    assert_eq!(c.machine, "v-machine");
    assert_eq!(c.ram, "t-ram");
    assert_eq!(c.cpu, "d-cpu");
    assert_eq!(c.output, "sdl");
}

#[test]
fn builtin_defaults_fill_every_field() {
    let c = resolve_config(None, None, opts(), "myvm");
    assert_eq!(c.vmname, "myvm");
    assert_eq!(c.launcher, "slquickemu");
    assert_eq!(c.guest_os, "linux");
    assert_eq!(c.cpu, "-cpu host,kvm=on");
    assert!(c.kvm);
    assert_eq!(c.ram, "auto");
    assert_eq!(c.cpu_cores, 0);
    assert_eq!(c.machine, "q35");
    assert!(!c.boot_menu);
    assert_eq!(c.boot, "");
    assert_eq!(c.iso, "");
    assert_eq!(c.driver_iso, "");
    assert_eq!(c.disk_img, "");
    assert_eq!(c.disk2_img, "");
    assert_eq!(c.disk, "128G");
    assert_eq!(c.disk2, "128G");
    assert_eq!(c.floppy, "");
    assert_eq!(c.disk_interface, "none");
    assert_eq!(c.scsi_controller, "");
    assert_eq!(c.display_device, "vga");
    assert_eq!(c.audio, "intel-hda");
    assert_eq!(c.audio_output, "pa");
    assert_eq!(c.pc_spkr, "");
    assert!(c.virgl);
    assert!(c.gl);
    assert_eq!(c.output, "sdl");
    assert_eq!(c.output_extras, "");
    assert!(c.rtc);
    assert!(c.spice);
    assert_eq!(c.qemu_path, "/snap/bin/qemu-virgil");
    assert_eq!(c.qemu_img_path, "/snap/bin/qemu-virgil.qemu-img");
}

#[test]
fn guest_os_comes_from_vm_file_alone() {
    let mut vm = opts();
    vm.guest_os = Some("windows".to_string());
    assert_eq!(guest_os_of(&vm), "windows");
    assert_eq!(guest_os_of(&opts()), "linux");

    // An overlay's guest_os value does not decide the resolved tag.
    let mut defaults = opts();
    defaults.guest_os = Some("haiku".to_string());
    let c = resolve_config(Some(defaults), None, opts(), "x");
    assert_eq!(c.guest_os, "linux");
}

#[test]
fn vmname_falls_back_to_file_stem() {
    assert_eq!(vmname_fallback("/etc/vms/alpine.toml"), "alpine");
    assert_eq!(vmname_fallback("alpine.toml"), "alpine");
    assert_eq!(vmname_fallback("a/b/noext"), "noext");
    assert_eq!(vmname_fallback(""), "vm");
    assert_eq!(vmname_fallback("dir/"), "vm");
    assert_eq!(vmname_fallback(".hidden"), ".hidden");
    let mut vm = opts();
    vm.vmname = Some("named".to_string());
    let c = resolve_config(None, None, vm, "stem");
    assert_eq!(c.vmname, "named");
    let c2 = resolve_config(None, None, opts(), "stem");
    assert_eq!(c2.vmname, "stem");
}

#[test]
fn resolution_is_idempotent() {
    let mk = || {
        let mut defaults = opts();
        defaults.ram = Some("3G".to_string());
        let mut vm = opts();
        vm.iso = Some("/tmp/x.iso".to_string());
        resolve_config(Some(defaults), None, vm, "twin")
    };
    let c1 = mk();
    let c2 = mk();
    assert_eq!(c1, c2);
}

#[test]
fn extension_classification() {
    assert_eq!(check_config_extension("vm.toml"), Ok(()));
    assert_eq!(check_config_extension("/a/b/vm.toml"), Ok(()));
    assert_eq!(check_config_extension("vm.yaml"), Err(ERRORCODES::YAML));
    assert_eq!(check_config_extension("vm.conf"), Err(ERRORCODES::MISC));
    assert_eq!(check_config_extension("vm"), Err(ERRORCODES::MISC));
    assert_eq!(check_config_extension(""), Err(ERRORCODES::MISC));
}

#[test]
fn extension_extraction() {
    assert_eq!(get_extension_from_file("a/b/c.toml"), Some("toml"));
    assert_eq!(get_extension_from_file("c.tar.gz"), Some("gz"));
    assert_eq!(get_extension_from_file("noext"), None);
    assert_eq!(get_extension_from_file(".hidden"), None);
    assert_eq!(get_extension_from_file("trailing."), Some(""));
}

use common::hardware::{detect_model, parse_firmware, MiyooDeviceModel};

#[test]
fn test_parse_firmware() {
    let data = r#"SdUpgradeImage=miyoo354_fw.img
baudrate=115200
bootargs=console=ttyS0,115200 root=/dev/mtdblock4 rootfstype=squashfs ro init=/linuxrc LX_MEM=0x7f00000 mma_heap=mma_heap_name0,miu=0,sz=0x1500000 mma_memblock_remove=1 highres=off mmap_reserved=fb,miu=0,sz=0x300000,max_start_off=0x7C00000,max_end_off=0x7F00000
bootcmd=gpio output 85 1; bootlogo 0 0 0 0 0; mw 1f001cc0 11; gpio out 8 0; sf probe 0;sf read 0x22000000 ${sf_kernel_start} ${sf_kernel_size}; gpio out 8 1; sleepms 1000; gpio output 4 1; bootm 0x22000000
bootdelay=0
cpu_part_start=14270000
dispout=K101_IM2BVL
ethact=sstar_emac
ethaddr=00:30:1b:ba:02:db
filesize=1774c
miyoo_version=202303262339
sf_kernel_size=200000
sf_kernel_start=60000
sf_part_size=20000
sf_part_start=270000
stderr=serial
stdin=serial
stdout=serial
usb_folder=images
"#;
    assert_eq!(parse_firmware(data), "202303262339");
}

#[test]
fn parse_firmware_without_version_is_empty() {
    assert_eq!(parse_firmware("baudrate=115200\nbootdelay=0\n"), "");
    assert_eq!(parse_firmware(""), "");
}

#[test]
fn parse_firmware_last_line_without_newline() {
    assert_eq!(parse_firmware("a=b\nmiyoo_version=20230101"), "20230101");
}

#[test]
fn detect_model_by_axp_test() {
    assert_eq!(detect_model(true), MiyooDeviceModel::Miyoo354);
    assert_eq!(detect_model(false), MiyooDeviceModel::Miyoo283);
    assert!(MiyooDeviceModel::Miyoo354.has_wifi());
    assert!(!MiyooDeviceModel::Miyoo283.has_wifi());
    assert_eq!(MiyooDeviceModel::Miyoo283.to_string(), "Miyoo Mini (MY283)");
    assert_eq!(MiyooDeviceModel::Miyoo354.to_string(), "Miyoo Mini+ (MY354)");
}

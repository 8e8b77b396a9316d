use capability::feature::{
    amu_description, csv2_description, el_description, field, fp_description, gic_description,
    has_rme, presence_description, ras_description, rme_description,
};

#[test]
fn field_extraction() {
    // Each field is 4 bits wide at the given shift.
    assert_eq!(field(0x0000_0000_0000_0011, 0), 0x1);
    assert_eq!(field(0x0000_0000_0000_0011, 4), 0x1);
    assert_eq!(field(0xF000_0000_0000_0000, 60), 0xF);
    assert_eq!(field(0x0012_3456_789A_BCDE, 20), 0x9);
}

#[test]
fn rme_detection() {
    // Bits 55:52 report the Realm Management Extension.
    assert!(!has_rme(0));
    assert!(has_rme(0x0010_0000_0000_0000));
    assert!(has_rme(0x0020_0000_0000_0000));
    assert!(!has_rme(0x0001_0000_0000_0000));
}

#[test]
fn descriptions() {
    assert_eq!(el_description(0b0000), "none");
    assert_eq!(el_description(0b0001), "AArch64");
    assert_eq!(el_description(0b0010), "AArch64+AArch32");
    assert_eq!(el_description(0b0111), "unknown");

    assert_eq!(fp_description(0b0000), "yes");
    assert_eq!(fp_description(0b0001), "yes (FP16)");
    assert_eq!(fp_description(0b1111), "no");
    assert_eq!(fp_description(0b0100), "unknown");

    assert_eq!(gic_description(0b0000), "none");
    assert_eq!(gic_description(0b0001), "v3.0/v4.0");
    assert_eq!(gic_description(0b0011), "v4.1");
    assert_eq!(gic_description(0b0010), "unknown");

    assert_eq!(ras_description(0b0001), "v1");
    assert_eq!(ras_description(0b0010), "v1.1");
    assert_eq!(ras_description(0b0011), "v2");

    assert_eq!(amu_description(0b0001), "v1");
    assert_eq!(amu_description(0b0010), "v1.1");

    assert_eq!(rme_description(0b0010), "v1 + GPC2");
    assert_eq!(rme_description(0b0011), "v1 + GPC2 + GPC3");

    assert_eq!(csv2_description(0b0010), "v2");
    assert_eq!(csv2_description(0b0011), "v3");

    assert_eq!(presence_description(0), "no");
    assert_eq!(presence_description(1), "yes");
    assert_eq!(presence_description(0xF), "yes");
}

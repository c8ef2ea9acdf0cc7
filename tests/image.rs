use okf::image::{mapped_end, MappedImage, ProgramHeader, PT_LOAD, PT_SCE_RELRO};

fn hdr(ty: u32, addr: u64, len: u64, align: u64) -> ProgramHeader {
    ProgramHeader { ty, addr, len, align }
}

#[test]
fn image_mapped_end_scenario() {
    let hs = vec![
        hdr(PT_LOAD, 0x1000, 0x2000, 0x1000),
        hdr(PT_SCE_RELRO, 0x3000, 0x500, 0x1000),
    ];
    assert_eq!(mapped_end(&hs), Some(0x4000));
}

#[test]
fn image_other_segments_ignored() {
    let hs = vec![
        hdr(PT_LOAD, 0x0, 0x1800, 0x1000),
        hdr(6, 0x0, 0x100000, 0x8),
        hdr(PT_LOAD, 0x2000, 0x10, 0x4000),
    ];
    assert_eq!(mapped_end(&hs), Some(0x4000));
}

#[test]
fn image_inconsistent_headers() {
    let hs = vec![
        hdr(PT_LOAD, 0x1000, 0x2000, 0x1000),
        hdr(PT_LOAD, 0x2000, 0x100, 0x1000),
    ];
    assert_eq!(mapped_end(&hs), None);
    assert!(MappedImage::from_headers(0x8000, &hs).is_none());
}

#[test]
fn image_range_from_base() {
    let hs = vec![hdr(PT_LOAD, 0x0, 0x1234, 0x1000), hdr(PT_LOAD, 0x2000, 0x1, 0)];
    let m = MappedImage::from_headers(0xffff_8000_0000_0000, &hs).unwrap();
    assert_eq!(m.start, 0xffff_8000_0000_0000);
    assert_eq!(m.end, 0xffff_8000_0000_2001);
    assert_eq!(mapped_end(&Vec::new()), Some(0));
}

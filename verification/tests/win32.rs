use pciewatch::win32::{
    balloon, ensure_singleton, guid_mem_bytes, set_tip, singleton_name, Kind, BALLOON_MS,
    NIF_GUID, NIF_INFO, NIF_TIP, NIIF_ERROR, NIIF_INFO, NIIF_WARNING, TRAY_GUID,
};

#[test]
fn guid_bytes_match_shell_layout() {
    // TRAY_GUID = 0x420e1bd2_5733_6c9a_8f4e_2d4b_110a_9c71
    //   data1 = 0x420e1bd2 (LE) -> d2 1b 0e 42
    //   data2 = 0x5733     (LE) -> 33 57
    //   data3 = 0x6c9a     (LE) -> 9a 6c
    //   data4 = raw bytes of low 64 bits -> 8f 4e 2d 4b 11 0a 9c 71
    // (deliberately != TRAY_GUID.to_le_bytes())
    assert_eq!(
        guid_mem_bytes(TRAY_GUID),
        [
            0xd2, 0x1b, 0x0e, 0x42, 0x33, 0x57, 0x9a, 0x6c, 0x8f, 0x4e, 0x2d, 0x4b, 0x11, 0x0a,
            0x9c, 0x71
        ]
    );
    assert_ne!(guid_mem_bytes(TRAY_GUID), TRAY_GUID.to_le_bytes());
}

#[test]
fn guid_bytes_differ_with_the_guid() {
    assert_eq!(guid_mem_bytes(0), [0; 16]);
    assert_eq!(guid_mem_bytes(u128::MAX), [255; 16]);
    for bit in 0..128 {
        assert_ne!(guid_mem_bytes(1 << bit), guid_mem_bytes(0));
    }
}

#[test]
fn tip_is_terminated() {
    let d = set_tip("Gen3 x16");
    assert_eq!(d.uflags, NIF_TIP | NIF_GUID);
    assert_eq!(d.uflags, 0x24);
    let want: Vec<u16> = "Gen3 x16".encode_utf16().collect();
    assert_eq!(d.sz_tip[..8], want[..]);
    assert!(d.sz_tip[8..].iter().all(|u| *u == 0));
    assert!(d.sz_info.iter().all(|u| *u == 0));
    assert!(d.sz_info_title.iter().all(|u| *u == 0));
    assert_eq!((d.u_timeout, d.dw_info_flags), (0, 0));
    assert_eq!(d.guid_item, guid_mem_bytes(TRAY_GUID));
}

#[test]
fn long_tip_is_cut() {
    let text = "—".repeat(300);
    let d = set_tip(&text);
    let want: Vec<u16> = text.encode_utf16().take(127).collect();
    assert_eq!(d.sz_tip[..127], want[..]);
    assert_eq!(d.sz_tip[127], 0);
}

#[test]
fn surrogates_are_cut_like_any_unit() {
    let text = format!("a{}", "😀".repeat(100));
    let d = set_tip(&text);
    let want: Vec<u16> = text.encode_utf16().take(127).collect();
    assert_eq!(d.sz_tip[..127], want[..]);
    assert_eq!(d.sz_tip[1], 0xd83d);
    assert_eq!(d.sz_tip[2], 0xde00);
}

#[test]
fn balloon_carries_title_and_text() {
    let title = "t".repeat(70);
    let msg = "m".repeat(260);
    let d = balloon(&title, &msg, Kind::Warning);
    assert_eq!(d.uflags, NIF_INFO | NIF_GUID);
    assert_eq!(d.u_timeout, BALLOON_MS);
    assert_eq!(d.dw_info_flags, NIIF_WARNING);
    assert!(d.sz_info_title[..63].iter().all(|u| *u == 't' as u16));
    assert_eq!(d.sz_info_title[63], 0);
    assert!(d.sz_info[..255].iter().all(|u| *u == 'm' as u16));
    assert_eq!(d.sz_info[255], 0);
    assert!(d.sz_tip.iter().all(|u| *u == 0));
    assert_eq!(d.guid_item, guid_mem_bytes(TRAY_GUID));
}

#[test]
fn kinds_have_their_symbols() {
    assert_eq!(balloon("", "", Kind::Info).dw_info_flags, NIIF_INFO);
    assert_eq!(balloon("", "", Kind::Error).dw_info_flags, NIIF_ERROR);
    assert_eq!((NIIF_INFO, NIIF_WARNING, NIIF_ERROR), (1, 2, 4));
}

#[test]
fn second_instance_is_refused() {
    assert!(!ensure_singleton(Some(183), false));
    assert!(!ensure_singleton(Some(183), true));
    assert!(ensure_singleton(Some(0), false));
    assert!(ensure_singleton(None, false));
    // Creation failed for some other reason: the start is not blocked.
    assert!(ensure_singleton(Some(5), true));
}

#[test]
fn singleton_name_is_terminated() {
    let want: Vec<u16> = "PcieWatch_Singleton\0".encode_utf16().collect();
    assert_eq!(singleton_name(), want);
}

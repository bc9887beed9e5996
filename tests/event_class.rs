use fruity::{AEEventClass, FourCharCode};
use std::cmp::Ordering;

#[test]
fn chars_round_trip() {
    for chars in [*b"aevt", *b"mous", [0, 0, 0, 0], [0xff, 0xff, 0xff, 0xff], [1, 0x80, 0x7f, 0xfe]] {
        assert_eq!(AEEventClass::from_chars(chars).into_chars(), chars);
        assert_eq!(FourCharCode::from_chars(chars).into_chars(), chars);
    }
}

#[test]
fn int_round_trip() {
    for value in [0u32, 1, 0x6165_7674, 0x8000_0000, u32::MAX] {
        assert_eq!(AEEventClass::from_int(value).into_int(), value);
        assert_eq!(FourCharCode::from_int(value).into_int(), value);
    }
}

#[test]
fn chars_are_packed_big_endian() {
    assert_eq!(AEEventClass::from_chars([0x61, 0x65, 0x76, 0x74]).into_int(), 0x6165_7674);
    assert_eq!(AEEventClass::from_chars([0x01, 0x02, 0x03, 0x04]).into_int(), 0x0102_0304);
    assert_eq!(AEEventClass::from_int(0x0102_0304).into_chars(), [0x01, 0x02, 0x03, 0x04]);
    assert_eq!(AEEventClass::from_int(0x6d6f_7573).into_chars(), *b"mous");
}

#[test]
fn catalog_codes() {
    assert_eq!(AEEventClass::core_event().into_chars(), *b"aevt");
    assert_eq!(AEEventClass::mouse().into_chars(), *b"mous");
    assert_eq!(AEEventClass::keyboard().into_chars(), *b"keyb");
    assert_eq!(AEEventClass::text_input().into_chars(), *b"text");
    assert_eq!(AEEventClass::application().into_chars(), *b"appl");
    assert_eq!(AEEventClass::apple_event().into_chars(), *b"eppc");
    assert_eq!(AEEventClass::menu().into_chars(), *b"menu");
    assert_eq!(AEEventClass::window().into_chars(), *b"wind");
    assert_eq!(AEEventClass::control().into_chars(), *b"cntl");
    assert_eq!(AEEventClass::command().into_chars(), *b"cmds");
    assert_eq!(AEEventClass::tablet().into_chars(), *b"tblt");
    assert_eq!(AEEventClass::volume().into_chars(), *b"vol ");
    assert_eq!(AEEventClass::appearance_manager().into_chars(), *b"appm");
    assert_eq!(AEEventClass::service().into_chars(), *b"serv");
    assert_eq!(AEEventClass::toolbar().into_chars(), *b"tbar");
    assert_eq!(AEEventClass::toolbar_item().into_chars(), *b"tbit");
    assert_eq!(AEEventClass::toolbar_item_view().into_chars(), *b"tbiv");
    assert_eq!(AEEventClass::accessibility().into_chars(), *b"acce");
    assert_eq!(AEEventClass::system().into_chars(), *b"macs");
    assert_eq!(AEEventClass::ink().into_chars(), *b"ink ");
    assert_eq!(AEEventClass::tsm_document_access().into_chars(), *b"tdac");
    assert_eq!(AEEventClass::gesture().into_chars(), *b"gest");
    assert_eq!(AEEventClass::clock_view().into_chars(), *b"cloc");
    assert_eq!(AEEventClass::text_field().into_chars(), *b"txfd");
    assert_eq!(AEEventClass::hi_object().into_chars(), *b"hiob");
    assert_eq!(AEEventClass::delegate().into_chars(), *b"dele");
    assert_eq!(AEEventClass::scrollable().into_chars(), *b"scrl");
    assert_eq!(AEEventClass::hi_combo_box().into_chars(), *b"hicb");
    assert_eq!(AEEventClass::search_field().into_chars(), *b"srfd");
    assert_eq!(AEEventClass::appearance().into_chars(), *b"appr");
    assert_eq!(AEEventClass::data_browser().into_chars(), *b"hidb");
    assert_eq!(AEEventClass::internet().into_chars(), *b"GURL");
    assert_eq!(AEEventClass::ic_edit_preference().into_chars(), *b"ICAp");
    assert_eq!(AEEventClass::digi_hub().into_chars(), *b"dhub");
    assert_eq!(AEEventClass::font().into_chars(), *b"font");
    assert_eq!(AEEventClass::ab_people_picker().into_chars(), *b"abpp");
}

#[test]
fn catalog_core_and_mouse_values() {
    assert_eq!(AEEventClass::core_event().into_int(), 0x6165_7674);
    assert_eq!(AEEventClass::mouse().into_int(), 0x6d6f_7573);
    assert!(AEEventClass::core_event() == AEEventClass::from_chars(*b"aevt"));
}

#[test]
fn same_bytes_compare_equal() {
    let a = AEEventClass::from_chars(*b"wind");
    let b = AEEventClass::from_chars(*b"wind");
    assert!(a == b);
    assert_eq!(a.partial_cmp(&b), Some(Ordering::Equal));
    assert_eq!(a.cmp(&b), Ordering::Equal);
    assert!(a == AEEventClass::from_int(a.into_int()));
    assert!(a != AEEventClass::from_chars(*b"winD"));
}

#[test]
fn ordering_follows_packed_integer() {
    let codes = [*b"aevt", *b"abpp", *b"mous", *b"GURL", *b"vol ", [0xff, 0, 0, 0], [0, 0, 0, 1]];
    for x in codes {
        for y in codes {
            let a = AEEventClass::from_chars(x);
            let b = AEEventClass::from_chars(y);
            let expected = a.into_int().cmp(&b.into_int());
            assert_eq!(a.partial_cmp(&b), Some(expected));
            assert_eq!(a.cmp(&b), expected);
            assert_eq!(a < b, x < y);
            let c = FourCharCode::from_chars(x);
            let d = FourCharCode::from_chars(y);
            assert_eq!(c.partial_cmp(&d), Some(expected));
            assert_eq!(c.cmp(&d), expected);
        }
    }
}

#[test]
fn first_byte_decides_order() {
    assert!(AEEventClass::from_chars([1, 0, 0, 0]) > AEEventClass::from_chars([0, 0xff, 0xff, 0xff]));
    assert!(AEEventClass::from_chars(*b"GURL") < AEEventClass::from_chars(*b"aevt"));
}

#[test]
fn debug_text_of_printable_code() {
    assert_eq!(AEEventClass::core_event().debug_string(), "\"aevt\"");
    assert_eq!(AEEventClass::volume().debug_string(), "\"vol \"");
    assert_eq!(FourCharCode::from_chars(*b"ICAp").debug_string(), "\"ICAp\"");
}

#[test]
fn debug_text_escapes_special_bytes() {
    assert_eq!(AEEventClass::from_chars([b'\t', b'\r', b'\n', b'a']).debug_string(), "\"\\t\\r\\na\"");
    assert_eq!(AEEventClass::from_chars([b'"', b'\'', b'\\', b'z']).debug_string(), "\"\\\"'\\\\z\"");
    assert_eq!(AEEventClass::from_chars([0, 0x1f, 0x7f, 0xff]).debug_string(), "\"\\x00\\x1f\\x7f\\xff\"");
    assert_eq!(AEEventClass::from_int(0x9d41_0a3c).debug_string(), "\"\\x9dA\\n<\"");
}

#[test]
fn debug_text_keeps_single_quote() {
    assert_eq!(AEEventClass::from_chars(*b"''''").debug_string(), "\"''''\"");
    assert_eq!(AEEventClass::from_chars(*b"a'b'").debug_string(), "\"a'b'\"");
}

#[test]
fn debug_text_matches_std_escaping_but_for_single_quote() {
    for value in [0u32, 0x6165_7674, 0x0922_5c27, 0x7f80_9aff, 0x2020_7e21] {
        let chars = AEEventClass::from_int(value).into_chars();
        let mut expected = String::from("\"");
        for b in chars {
            if b == b'\'' {
                expected.push('\'');
            } else {
                expected.push_str(&std::ascii::escape_default(b).to_string());
            }
        }
        expected.push('"');
        assert_eq!(AEEventClass::from_int(value).debug_string(), expected);
    }
}

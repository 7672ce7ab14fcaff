use fwtable::pci::elements_of;
use fwtable::pci::store_elements;
use fwtable::width::IoWidth;
use fwtable::width::ToIoWidth;

#[test]
fn width_codes_match_firmware_enumeration() {
    assert_eq!(IoWidth::U8.code(), 0);
    assert_eq!(IoWidth::U16.code(), 1);
    assert_eq!(IoWidth::U32.code(), 2);
    assert_eq!(IoWidth::U64.code(), 3);
}

#[test]
fn dispatch_selects_width_from_element_type() {
    assert_eq!(<u8 as ToIoWidth>::io_width(), IoWidth::U8);
    assert_eq!(<u16 as ToIoWidth>::io_width(), IoWidth::U16);
    assert_eq!(<u32 as ToIoWidth>::io_width(), IoWidth::U32);
}

#[test]
fn dispatched_codes_for_8_16_32_bits() {
    assert_eq!(<u8 as ToIoWidth>::io_width().code(), 0);
    assert_eq!(<u16 as ToIoWidth>::io_width().code(), 1);
    assert_eq!(<u32 as ToIoWidth>::io_width().code(), 2);
}

#[test]
fn element_conversion_round_trips() {
    assert_eq!(u8::from_element(0xFFu8.to_element()), 0xFF);
    assert_eq!(u16::from_element(0xABCDu16.to_element()), 0xABCD);
    assert_eq!(u32::from_element(0xDEAD_BEEFu32.to_element()), 0xDEAD_BEEF);
    assert_eq!(0u8.to_element(), 0);
    assert_eq!(u32::MAX.to_element(), 0xFFFF_FFFF);
}

#[test]
fn element_buffers_convert_exactly() {
    let data: Vec<u16> = vec![0, 0xABCD, 0xFFFF];
    let elems = elements_of(&data);
    assert_eq!(elems, vec![0, 0xABCD, 0xFFFF]);

    let mut back: Vec<u16> = vec![9, 9, 9];
    store_elements(&mut back, &elems);
    assert_eq!(back, data);
}

#[test]
fn element_buffer_conversion_of_empty_buffer() {
    let data: Vec<u32> = Vec::new();
    assert!(elements_of(&data).is_empty());
}

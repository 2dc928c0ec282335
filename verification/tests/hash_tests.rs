use nebula::hash::{hash_int, transform_u32_to_array_of_u8};

#[test]
fn hash_from_int() {
    let h1 = hash_int(1);
    let h2 = hash_int(2);
    let h3 = hash_int(3);
    let h4 = hash_int(4);
    let h5 = hash_int(4213);
    let h6 = hash_int(7412213);

    assert_eq!(h1, 1742378985846435984);
    assert_eq!(h2, 16336925911988107921);
    assert_eq!(h3, 568126464209439262);
    assert_eq!(h4, 15565210526001683492);
    assert_eq!(h5, 11141868147914754390);
    assert_eq!(h6, 692891098868956402);
}

#[test]
fn bytes_of_u32_come_most_significant_first() {
    assert_eq!(transform_u32_to_array_of_u8(0x12345678), [0x12, 0x34, 0x56, 0x78]);
    assert_eq!(transform_u32_to_array_of_u8(0), [0, 0, 0, 0]);
    assert_eq!(transform_u32_to_array_of_u8(u32::MAX), [0xff, 0xff, 0xff, 0xff]);
    assert_eq!(transform_u32_to_array_of_u8(256), [0, 0, 1, 0]);
}

use align_constr::n_zst::{ZST1, ZST128, ZST16, ZST2, ZST256, ZST32, ZST4, ZST512, ZST64, ZST8};
use align_constr::AlignConstr;
use core::mem::{align_of, align_of_val, size_of};

fn address_of<T: ?Sized>(r: &T) -> usize {
    let text = format!("{:p}", r);
    usize::from_str_radix(text.trim_start_matches("0x"), 16).unwrap()
}

#[test]
fn size_of_align_constr_t_geq_size_of_t() {
    assert!(size_of::<AlignConstr<u8, u16>>() >= size_of::<u8>());
}

#[test]
fn align_of_u8_le_align_of_zst512() {
    assert!(align_of::<u8>() < align_of::<ZST512>());
}

#[test]
fn check_alignments_of_n_zsts() {
    assert!(align_of::<ZST1>() == 1);
    assert!(align_of::<ZST2>() == 2);
    assert!(align_of::<ZST4>() == 4);
    assert!(align_of::<ZST8>() == 8);
    assert!(align_of::<ZST16>() == 16);
    assert!(align_of::<ZST32>() == 32);
    assert!(align_of::<ZST64>() == 64);
    assert!(align_of::<ZST128>() == 128);
    assert!(align_of::<ZST256>() == 256);
    assert!(align_of::<ZST512>() == 512);
}

#[test]
fn align_constr_allows_overaligning() {
    assert!(align_of::<AlignConstr<u8, ZST512>>() > align_of::<u8>());
}

#[test]
fn align_constr_doesnt_reduce_alignment() {
    assert!(align_of::<AlignConstr<ZST512, u8>>() == align_of::<ZST512>());
}

#[test]
fn markers_are_zero_sized_with_distinct_alignments() {
    let aligns = [
        align_of::<ZST1>(),
        align_of::<ZST2>(),
        align_of::<ZST4>(),
        align_of::<ZST8>(),
        align_of::<ZST16>(),
        align_of::<ZST32>(),
        align_of::<ZST64>(),
        align_of::<ZST128>(),
        align_of::<ZST256>(),
        align_of::<ZST512>(),
    ];
    for i in 0..aligns.len() {
        for j in 0..aligns.len() {
            assert_eq!(aligns[i] == aligns[j], i == j);
        }
    }
    assert_eq!(size_of::<ZST1>(), 0);
    assert_eq!(size_of::<ZST64>(), 0);
    assert_eq!(size_of::<ZST512>(), 0);
}

#[test]
fn alignment_is_the_larger_of_payload_and_source() {
    assert_eq!(align_of::<AlignConstr<u8, ZST128>>(), 128);
    assert_eq!(align_of::<AlignConstr<u64, ZST2>>(), align_of::<u64>());
    assert_eq!(align_of::<AlignConstr<u32, ZST4>>(), 4);
    assert_eq!(align_of::<AlignConstr<[u8; 3], ZST16>>(), 16);
    assert_eq!(align_of::<AlignConstr<ZST512, ZST64>>(), 512);
    assert_eq!(align_of::<AlignConstr<u16, u8>>(), 2);
}

#[test]
fn overaligned_values_sit_on_multiples_of_the_alignment() {
    let on_stack = AlignConstr::<u8, ZST128>::new(3);
    assert_eq!(address_of(&on_stack) % 128, 0);
    let on_heap = Box::new(AlignConstr::<u8, ZST128>::new(4));
    assert_eq!(address_of(&*on_heap) % 128, 0);
    let many: Vec<AlignConstr<u8, ZST256>> = (0..4u8).map(AlignConstr::new).collect();
    for w in &many {
        assert_eq!(address_of(w) % 256, 0);
    }
}

#[test]
fn size_is_at_least_the_payload_size() {
    assert!(size_of::<AlignConstr<u8, ZST512>>() >= 1);
    assert_eq!(size_of::<AlignConstr<u8, ZST512>>(), 512);
    assert_eq!(size_of::<AlignConstr<[u8; 100], ZST64>>(), 128);
    assert_eq!(size_of::<AlignConstr<[u8; 64], ZST64>>(), 64);
    assert_eq!(size_of::<AlignConstr<u64, ZST1>>(), size_of::<u64>());
}

#[test]
fn unsized_payload_keeps_alignment() {
    let sized: Box<AlignConstr<[u8; 3], ZST64>> = Box::new(AlignConstr::new([1, 2, 3]));
    let unsized_payload: Box<AlignConstr<[u8], ZST64>> = sized;
    assert_eq!(align_of_val(&*unsized_payload), 64);
    assert_eq!(address_of(&unsized_payload.value[0]) % 64, 0);
    assert_eq!(&unsized_payload.value, &[1u8, 2, 3][..]);
}

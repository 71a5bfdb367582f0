use pic_emulator_rs::nbitnumber::{u12, u2, u3, u5, u7, u9, NBit, NBitNumber, NumberOperations};

#[test]
fn new_masks_to_width() {
    assert_eq!(NBitNumber::<9>::new(0x3FF).get(), 0x1FF);
    assert_eq!(NBitNumber::<12>::new(0x1234).get(), 0x234);
    assert_eq!(NBitNumber::<1>::new(0xFFFE).get(), 0);
    assert_eq!(NBitNumber::<1>::new(0xFFFF).get(), 1);
    assert_eq!(NBitNumber::<16>::new(0xFFFF).get(), 0xFFFF);
    assert_eq!(NBitNumber::<5>::new(0x1F).get(), 0x1F);
    assert_eq!(NBitNumber::<5>::new(0x20).get(), 0);
}

#[test]
fn new_is_the_mask_of_every_value_for_every_width() {
    fn check<const N: usize>() {
        let mask: u32 = (1u32 << N) - 1;
        for v in [0u16, 1, 2, 0x55, 0xAA, 0xFF, 0x100, 0x1FF, 0x0FFF, 0x1000, 0x7FFF, 0x8000, 0xFFFF] {
            assert_eq!(NBitNumber::<N>::new(v).get() as u32, v as u32 & mask);
        }
    }
    check::<1>();
    check::<2>();
    check::<3>();
    check::<4>();
    check::<5>();
    check::<6>();
    check::<7>();
    check::<8>();
    check::<9>();
    check::<10>();
    check::<11>();
    check::<12>();
    check::<13>();
    check::<14>();
    check::<15>();
    check::<16>();
}

#[test]
fn aliases_have_their_widths() {
    assert_eq!(u12::new(0xFFFF).get(), 0xFFF);
    assert_eq!(u9::new(0xFFFF).get(), 0x1FF);
    assert_eq!(u7::new(0xFFFF).get(), 0x7F);
    assert_eq!(u5::new(0xFFFF).get(), 0x1F);
    assert_eq!(u3::new(0xFFFF).get(), 0x7);
    assert_eq!(u2::new(0xFFFF).get(), 0x3);
    assert_eq!(u12::bits(), 12);
    assert_eq!(NBitNumber::<16>::bits(), 16);
}

#[test]
fn get_max_is_all_ones() {
    assert_eq!(<u5 as NumberOperations<5>>::get_max().get(), 31);
    assert_eq!(<u12 as NumberOperations<12>>::get_max().get(), 0xFFF);
    assert_eq!(<NBitNumber<1> as NumberOperations<1>>::get_max().get(), 1);
    assert_eq!(<NBitNumber<16> as NumberOperations<16>>::get_max().get(), 0xFFFF);
}

#[test]
fn number_operations_give_the_value() {
    let n = u9::new(0x1A5);
    assert_eq!(n.as_u16(), 0x1A5);
    assert_eq!(n.as_usize(), 0x1A5usize);
    assert_eq!(NumberOperations::get(&n), 0x1A5);
    assert_eq!(<u9 as NumberOperations<9>>::new().get(), 0);
}

#[test]
fn addition_wraps_at_the_width() {
    assert_eq!((u9::new(0x1FF) + u9::new(1)).get(), 0);
    assert_eq!((u9::new(0x1FF) + u9::new(0x1FF)).get(), 0x1FE);
    assert_eq!((u5::new(3) + u5::new(4)).get(), 7);
    let big = NBitNumber::<16>::new(0xFFFF);
    assert_eq!((big + big).get(), 0xFFFE);
    assert_eq!((big + NBitNumber::<16>::new(1)).get(), 0);
}

#[test]
fn subtraction_wraps_at_the_width() {
    assert_eq!((u9::new(0) - u9::new(1)).get(), 0x1FF);
    assert_eq!((u9::new(1) - u9::new(0x1FF)).get(), 2);
    assert_eq!((u5::new(9) - u5::new(4)).get(), 5);
    assert_eq!((u5::new(4) - u5::new(4)).get(), 0);
    let zero = NBitNumber::<16>::new(0);
    assert_eq!((zero - NBitNumber::<16>::new(1)).get(), 0xFFFF);
}

#[test]
fn bitwise_operations_stay_in_the_width() {
    assert_eq!((u9::new(0x1F0) & u9::new(0x0FF)).get(), 0x0F0);
    assert_eq!((u9::new(0x100) | u9::new(0x00F)).get(), 0x10F);
    assert_eq!((!u9::new(1)).get(), 0x1FE);
    assert_eq!((!u5::new(0)).get(), 0x1F);
    assert_eq!((!NBitNumber::<16>::new(0x00FF)).get(), 0xFF00);
}

#[test]
fn shifts_wrap_and_run_out() {
    assert_eq!((u9::new(0x1FF) << 3).get(), 0x1F8);
    assert_eq!((u9::new(0x1FF) >> 3).get(), 0x3F);
    assert_eq!((u9::new(0x1FF) << 9).get(), 0);
    assert_eq!((u9::new(0x1FF) >> 9).get(), 0);
    assert_eq!((u9::new(0x1FF) << 40).get(), 0);
    assert_eq!((u9::new(0x1FF) >> 40).get(), 0);
    assert_eq!((u9::new(1) << 8).get(), 0x100);
    assert_eq!((u9::new(5) << 0).get(), 5);
    assert_eq!((NBitNumber::<16>::new(0x8001) << 1).get(), 2);
    assert_eq!((NBitNumber::<16>::new(0x8001) >> 15).get(), 1);
}

#[test]
fn equality_and_order_go_by_value() {
    assert!(u9::new(0x3FF) == u9::new(0x1FF));
    assert!(u9::new(1) != u9::new(2));
    assert!(u9::new(1) < u9::new(2));
    assert!(u9::new(2) > u9::new(1));
    assert!(u9::new(2) <= u9::new(2));
    assert!(u9::new(2) >= u9::new(2));
}

#[test]
fn into_gives_the_plain_integer() {
    let plain: u16 = u9::new(0x2A5).into();
    assert_eq!(plain, 0x0A5);
    assert_eq!(u16::from(u12::new(0xABC)), 0xABC);
}

#[test]
fn clone_keeps_the_value() {
    let n = u9::new(0x155);
    let m = n.clone();
    let copy = n;
    assert_eq!(m.get(), 0x155);
    assert_eq!(copy.get(), 0x155);
}

#[test]
fn compare_lower_bits_uses_the_narrower_width() {
    // 0x234 and 0x4 agree in their low 3 bits, and in their low 4 bits
    let wide = u12::new(0x234);
    assert!(wide.compare_lower_bits(&u3::new(0x4)));
    assert!(wide.compare_lower_bits(&NBitNumber::<4>::new(0x4)));
    assert!(!wide.compare_lower_bits(&u3::new(0x7)));
    assert!(!wide.compare_lower_bits(&u5::new(0x04)));
    assert!(wide.compare_lower_bits(&u5::new(0x14)));
    // the narrower number may come first
    assert!(u3::new(0x4).compare_lower_bits(&wide));
    // same width: plain equality
    assert!(u9::new(0x155).compare_lower_bits(&u9::new(0x155)));
    assert!(!u9::new(0x155).compare_lower_bits(&u9::new(0x055)));
}

#[test]
fn compare_upper_bits_compares_the_overlapping_bits() {
    let wide = u12::new(0x234);
    assert!(wide.compare_upper_bits(&u3::new(0x4)));
    assert!(!wide.compare_upper_bits(&u3::new(0x5)));
    assert!(wide.compare_upper_bits(&u9::new(0x034)));
    assert!(!wide.compare_upper_bits(&u9::new(0x134)));
}

#[test]
fn sum_of_wraps_at_the_width() {
    assert_eq!(u5::sum_of(&[]).get(), 0);
    assert_eq!(u5::sum_of(&[u5::new(3), u5::new(4)]).get(), 7);
    assert_eq!(u5::sum_of(&[u5::new(30), u5::new(4), u5::new(31)]).get(), 1);
}

#[test]
fn nbit_knows_its_width_and_value() {
    assert_eq!(NBit::N6(NBitNumber::<6>::new(0b000111)).bits(), 6);
    assert_eq!(NBit::N6(NBitNumber::<6>::new(0b000111)).get(), 7);
    assert_eq!(NBit::N1(NBitNumber::<1>::new(3)).bits(), 1);
    assert_eq!(NBit::N1(NBitNumber::<1>::new(3)).get(), 1);
    assert_eq!(NBit::N16(NBitNumber::<16>::new(0xBEEF)).bits(), 16);
    assert_eq!(NBit::N16(NBitNumber::<16>::new(0xBEEF)).get(), 0xBEEF);
    assert_eq!(NBit::N12(u12::new(0x1ABC)).get(), 0xABC);
}

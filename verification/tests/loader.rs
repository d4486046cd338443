use lc3_vm::image::get16;
use lc3_vm::image::read_image;
use lc3_vm::image::LoadError;
use lc3_vm::memory::Context;

#[test]
fn get16_reads_big_endian() {
    let bytes = [0x12u8, 0x34, 0xAB, 0xCD, 0x00, 0xFF];
    assert_eq!(get16(&bytes, 0), 0x1234);
    assert_eq!(get16(&bytes, 1), 0x34AB);
    assert_eq!(get16(&bytes, 2), 0xABCD);
    assert_eq!(get16(&bytes, 4), 0x00FF);
}

#[test]
fn get16_extremes() {
    assert_eq!(get16(&[0x00, 0x00], 0), 0x0000);
    assert_eq!(get16(&[0xFF, 0xFF], 0), 0xFFFF);
    assert_eq!(get16(&[0xFF, 0x00], 0), 0xFF00);
}

#[test]
fn loader_round_trip() {
    let mut context = Context::new();
    let image = [0x30u8, 0x00, 0x00, 0x01, 0x00, 0x02, 0x00, 0x03];
    assert_eq!(read_image(&mut context.Memory, &image), Ok(8));
    assert_eq!(context.Memory[0x3000], 0x1);
    assert_eq!(context.Memory[0x3001], 0x2);
    assert_eq!(context.Memory[0x3002], 0x3);
    for address in 0..65536usize {
        if !(0x3000..0x3003).contains(&address) {
            assert_eq!(context.Memory[address], 0);
        }
    }
    assert!(context.Reg.iter().all(|value| *value == 0));
}

#[test]
fn loader_keeps_what_lies_outside_the_program() {
    let mut context = Context::new();
    context.Memory[0x2FFF] = 0xAAAA;
    context.Memory[0x3000] = 0xBBBB;
    context.Memory[0x3001] = 0xCCCC;
    context.Memory[0x3002] = 0xDDDD;
    let image = [0x30u8, 0x00, 0x12, 0x34, 0x56, 0x78];
    assert_eq!(read_image(&mut context.Memory, &image), Ok(6));
    assert_eq!(context.Memory[0x2FFF], 0xAAAA);
    assert_eq!(context.Memory[0x3000], 0x1234);
    assert_eq!(context.Memory[0x3001], 0x5678);
    assert_eq!(context.Memory[0x3002], 0xDDDD);
}

#[test]
fn a_later_image_overwrites_an_earlier_one() {
    let mut context = Context::new();
    assert_eq!(read_image(&mut context.Memory, &[0x30, 0x00, 0x00, 0x01, 0x00, 0x02]), Ok(6));
    assert_eq!(read_image(&mut context.Memory, &[0x30, 0x01, 0x00, 0x09, 0x00, 0x0A]), Ok(6));
    assert_eq!(context.Memory[0x3000], 1);
    assert_eq!(context.Memory[0x3001], 9);
    assert_eq!(context.Memory[0x3002], 10);
}

#[test]
fn an_image_with_an_origin_only_loads_nothing() {
    let mut context = Context::new();
    context.Memory[0x3000] = 5;
    let before = context.clone();
    assert_eq!(read_image(&mut context.Memory, &[0x30, 0x00]), Ok(2));
    assert!(context == before);
}

#[test]
fn an_empty_image_has_no_origin() {
    let mut context = Context::new();
    assert_eq!(read_image(&mut context.Memory, &[]), Err(LoadError::MissingOrigin));
    assert_eq!(read_image(&mut context.Memory, &[0x30]), Err(LoadError::MissingOrigin));
    assert!(context == Context::new());
}

#[test]
fn half_a_word_is_refused() {
    let mut context = Context::new();
    context.Memory[0x3000] = 0x7777;
    let before = context.clone();
    assert_eq!(read_image(&mut context.Memory, &[0x30, 0x00, 0x12]), Err(LoadError::OddLength));
    assert_eq!(
        read_image(&mut context.Memory, &[0x30, 0x00, 0x12, 0x34, 0x56]),
        Err(LoadError::OddLength)
    );
    assert!(context == before);
}

#[test]
fn a_program_that_ends_at_the_last_address_fits() {
    let mut context = Context::new();
    assert_eq!(read_image(&mut context.Memory, &[0xFF, 0xFF, 0xBE, 0xEF]), Ok(4));
    assert_eq!(context.Memory[0xFFFF], 0xBEEF);
    assert_eq!(read_image(&mut context.Memory, &[0xFF, 0xFE, 0x00, 0x01, 0x00, 0x02]), Ok(6));
    assert_eq!(context.Memory[0xFFFE], 1);
    assert_eq!(context.Memory[0xFFFF], 2);
}

#[test]
fn a_program_that_runs_past_the_last_address_is_refused() {
    let mut context = Context::new();
    context.Memory[0xFFFF] = 0x4242;
    context.Memory[0] = 0x2424;
    let before = context.clone();
    assert_eq!(
        read_image(&mut context.Memory, &[0xFF, 0xFF, 0x00, 0x01, 0x00, 0x02]),
        Err(LoadError::TooLong)
    );
    assert!(context == before);
}

#[test]
fn an_image_can_fill_the_whole_memory_and_no_more() {
    let mut full = vec![0x00u8, 0x00];
    for word in 0..65536u32 {
        full.push((word >> 8) as u8);
        full.push(word as u8);
    }
    let mut context = Context::new();
    assert_eq!(read_image(&mut context.Memory, &full), Ok(131074));
    for address in 0..65536usize {
        assert_eq!(context.Memory[address], address as u16);
    }
    full.push(0);
    full.push(0);
    let mut other = Context::new();
    assert_eq!(read_image(&mut other.Memory, &full), Err(LoadError::TooLong));
    assert!(other == Context::new());
}

#[test]
fn an_odd_length_is_reported_before_an_overflow() {
    let mut context = Context::new();
    assert_eq!(
        read_image(&mut context.Memory, &[0xFF, 0xFF, 0x00, 0x01, 0x00, 0x02, 0x00]),
        Err(LoadError::OddLength)
    );
}

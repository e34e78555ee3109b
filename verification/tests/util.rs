use wiinet::system::OSAlarm;
use wiinet::system::OSThread;
use wiinet::system::WiiMutex;
use wiinet::text::format_i32;
use wiinet::text::format_position;
use wiinet::text::format_u32;
use wiinet::util::simple_rng;
use wiinet::util::AlignedBuf;
use wiinet::util::Ioctlv;

#[test]
fn rng_follows_the_linear_congruence() {
    let mut state: u32 = 0;
    assert_eq!(simple_rng(&mut state), 1_013_904_223);
    assert_eq!(state, 1_013_904_223);
    let expected = 1_013_904_223u32
        .wrapping_mul(1_664_525)
        .wrapping_add(1_013_904_223);
    assert_eq!(simple_rng(&mut state), expected);
    let mut wrap: u32 = u32::MAX;
    let expected = u32::MAX.wrapping_mul(1_664_525).wrapping_add(1_013_904_223);
    assert_eq!(simple_rng(&mut wrap), expected);
}

#[test]
fn fresh_records_are_zeroed() {
    let _alarm = OSAlarm::new();
    let _thread = OSThread::new();
    let _mutex = WiiMutex::new();
    let buf: AlignedBuf<32> = AlignedBuf::new();
    assert_eq!(buf.buf, [0u8; 32]);
    let v = Ioctlv { args: [1u32, 2, 3] };
    assert_eq!(v.args[2], 3);
}

#[test]
fn unsigned_formatting_is_plain_decimal() {
    assert_eq!(format_u32(0), b"0".to_vec());
    assert_eq!(format_u32(7), b"7".to_vec());
    assert_eq!(format_u32(10), b"10".to_vec());
    assert_eq!(format_u32(4_294_967_295), b"4294967295".to_vec());
}

#[test]
fn signed_formatting_handles_the_extremes() {
    assert_eq!(format_i32(0), b"0".to_vec());
    assert_eq!(format_i32(-1), b"-1".to_vec());
    assert_eq!(format_i32(2_147_483_647), b"2147483647".to_vec());
    assert_eq!(format_i32(-2_147_483_648), b"-2147483648".to_vec());
}

#[test]
fn position_text_is_colon_separated_with_a_line_feed() {
    assert_eq!(format_position(1, 2, 3), b"1:2:3\n".to_vec());
    assert_eq!(format_position(-7, 0, 1000), b"-7:0:1000\n".to_vec());
}

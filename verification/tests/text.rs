use devvoice::text;

#[test]
fn whitespace_matches_the_standard_library() {
    let mut n: u32 = 0;
    while n <= 0x10FFFF {
        if let Some(c) = char::from_u32(n) {
            assert_eq!(text::is_whitespace(c), c.is_whitespace());
        }
        n += 1;
    }
}

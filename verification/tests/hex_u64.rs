use radix_literal::hex::parse_hex_u64;
use radix_literal::outcome::{Outcome, Reason};

#[test]
fn test_parse_hex_u64() {

    //test semi normal
    let a = b"0xdeadbeef ";
    let (b,c) = match parse_hex_u64(a) {
        Outcome::Complete(y,x) => (y,x),
        Outcome::Malformed(e) => panic!("Error parsing 0xdeadbeef {:?}", e),
        Outcome::Incomplete(e) => panic!("Error parsing 0xdeadbeef {:?}", e),
    };
    assert_eq!(b, b" ");
    assert_eq!(c, 3735928559u64);

    //test max value
    let a = b"0xFFFFFFFFFFFFFFFF ";
    let (b,c) = match parse_hex_u64(a) {
        Outcome::Complete(y,x) => (y,x),
        Outcome::Malformed(e) => panic!("Error parsing 0xFFFFFFFFFFFFFFFF {:?}", e),
        Outcome::Incomplete(e) => panic!("Error parsing 0xFFFFFFFFFFFFFFFF {:?}", e),
    };
    assert_eq!(b, b" ");
    assert_eq!(c, ::std::u64::MAX);

    //test min value
    let a = b"0x0000000000000000 ";
    let (b,c) = match parse_hex_u64(a) {
        Outcome::Complete(y,x) => (y,x),
        Outcome::Malformed(e) => panic!("Error parsing 0x0000000000000000 {:?}", e),
        Outcome::Incomplete(e) => panic!("Error parsing 0x0000000000000000 {:?}", e),
    };
    assert_eq!(b, b" ");
    assert_eq!(c, 0u64);

    //test very short
    let a = b"0x0 ";
    let (b,c) = match parse_hex_u64(a) {
        Outcome::Complete(y,x) => (y,x),
        Outcome::Malformed(e) => panic!("Error parsing 0x0 {:?}", e),
        Outcome::Incomplete(e) => panic!("Error parsing 0x0 {:?}", e),
    };
    assert_eq!(b, b" ");
    assert_eq!(c, 0u64);

    //ensure prelude check works
    let a = b"0b000 ";
    match parse_hex_u64(a) {
        Outcome::Complete(_,_) => panic!("Test should return an error"),
        Outcome::Malformed(Reason::PrefixMismatch) => { },
        Outcome::Incomplete(e) => panic!("Error parsing 0xdeadbeef {:?}", e),
        Outcome::Malformed(e) => panic!("Incorrect error type returned {:?}", e)
    };
    let a = b"1x000 ";
    match parse_hex_u64(a) {
        Outcome::Complete(_,_) => panic!("Test should return an error"),
        Outcome::Malformed(Reason::PrefixMismatch) => { },
        Outcome::Incomplete(e) => panic!("Error parsing 0xdeadbeef {:?}", e),
        Outcome::Malformed(e) => panic!("Incorrect error type returned {:?}", e)
    };

    //ensure run on values terminate properly
    let a = b"0xFFFFFFFFFFFFFFFFFFFF ";
    let (b,c) = match parse_hex_u64(a) {
        Outcome::Complete(y,x) => (y,x),
        Outcome::Malformed(e) => panic!("Error runon {:?}", e),
        Outcome::Incomplete(e) => panic!("Error parsing ruon {:?}", e),
    };
    assert_eq!(b, b"FFFF ");
    assert_eq!(c, ::std::u64::MAX);
}

use frankencell::{first, Cell, Issuer, Token, TokenBuilder, TokenWith};

#[test]
fn init_tokens_test() {
    let mut issuer = Issuer::new();
    let first_builder: TokenBuilder<0> = first(&mut issuer).unwrap();
    let next = first_builder;
    let (t1, next): (Token<0>, TokenBuilder<1>) = next.token();
    let (t2, next): (Token<1>, TokenBuilder<2>) = next.token();
    let (t3, _next): (Token<2>, TokenBuilder<3>) = next.token();

    let cell1 = Cell::new(1);
    let cell2 = Cell::new(2);
    let cell3 = Cell::new(3);

    println!("{}", cell1.borrow(&t1));
    println!("{}", cell2.borrow(&t2));
    println!("{}", cell3.borrow(&t3));
    assert_eq!(*cell1.borrow(&t1), 1);
    assert_eq!(*cell2.borrow(&t2), 2);
    assert_eq!(*cell3.borrow(&t3), 3);
}

#[test]
fn test_first() {
    let mut issuer = Issuer::new();
    assert!(first(&mut issuer).is_some());
    assert!(first(&mut issuer).is_none());
}

#[test]
fn first_stays_exhausted() {
    let mut issuer = Issuer::new();
    assert!(!issuer.is_issued());
    assert!(first(&mut issuer).is_some());
    assert!(issuer.is_issued());
    for _ in 0..5 {
        assert!(first(&mut issuer).is_none());
        assert!(issuer.is_issued());
    }
}

#[test]
fn chain_tags_count_up_from_zero() {
    let mut issuer = Issuer::new();
    let b0: TokenBuilder<0> = first(&mut issuer).unwrap();
    assert_eq!(b0.tag(), 0);
    let (t0, b1): (Token<0>, TokenBuilder<1>) = b0.token();
    assert_eq!(b1.tag(), 1);
    let (t1, b2): (Token<1>, TokenBuilder<2>) = b1.token();
    let (t2, b3): (TokenWith<&str, 2>, TokenBuilder<3>) = b2.token_with("payload");
    let (t3, b4): (Token<3>, TokenBuilder<4>) = b3.token();
    let tags = [t0.tag(), t1.tag(), t2.tag(), t3.tag()];
    assert_eq!(tags, [0, 1, 2, 3]);
    for i in 1..tags.len() {
        assert_eq!(tags[i], tags[i - 1] + 1);
    }
    assert_eq!(b4.tag(), 4);
}

#[test]
fn token_with_payload_read_and_write() {
    let mut issuer = Issuer::new();
    let b0: TokenBuilder<0> = first(&mut issuer).unwrap();
    let (mut t, _b1): (TokenWith<Vec<u8>, 0>, TokenBuilder<1>) = b0.token_with(vec![1, 2]);
    assert_eq!(t.get_payload(), &vec![1, 2]);
    t.get_payload_mut().push(3);
    assert_eq!(t.get_payload(), &vec![1, 2, 3]);
    assert_eq!(t.tag(), 0);
}

#[test]
fn three_tokens_two_cells() {
    let mut issuer = Issuer::new();
    let b0: TokenBuilder<0> = first(&mut issuer).unwrap();
    let (t1, b1): (Token<0>, TokenBuilder<1>) = b0.token();
    let (t2, b2): (Token<1>, TokenBuilder<2>) = b1.token();
    let (t3, _b3): (Token<2>, TokenBuilder<3>) = b2.token();
    assert_eq!((t1.tag(), t2.tag(), t3.tag()), (0, 1, 2));
    let cell1 = t1.cell(1);
    let cell2: Cell<i32, 1> = Cell::new(2);
    assert_eq!(*cell1.borrow(&t1), 1);
    assert_eq!(*cell2.borrow(&t2), 2);
}

use kitties::Fliper;

#[test]
fn default_works() {
    let fliper = Fliper::default();
    assert_eq!(fliper.get(), false);
}

#[test]
fn it_works() {
    let mut fliper = Fliper::new(false);
    assert_eq!(fliper.get(), false);
    fliper.flip();
    assert_eq!(fliper.get(), true);
}

#[test]
fn flip_twice_restores_value() {
    let mut fliper = Fliper::new(true);
    fliper.flip();
    assert_eq!(fliper.get(), false);
    fliper.flip();
    assert_eq!(fliper.get(), true);
}

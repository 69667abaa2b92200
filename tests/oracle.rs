use margin_manager::oracle::Oracle;

#[test]
fn create_oracle_works() {
    let oracle_price = 1000;
    let oracle = Oracle::new(oracle_price);
    assert_eq!(oracle.get_price(), oracle_price);
}

#[test]
fn change_price_works() {
    let oracle_price = 1000;
    let new_price = 1200;

    let mut oracle = Oracle::new(oracle_price);

    oracle.change_price(1200);
    assert_eq!(oracle.get_price(), new_price);
}

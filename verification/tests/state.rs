use margined_engine::{
    map_validate, read_config, read_position, read_tmp_position, read_vamm,
    remove_tmp_position, store_config, store_position, store_tmp_position, store_vamm, Addr,
    Config, Direction, EngineStore, Position, StdError,
};

fn config(owner: &str, collateral: &str, decimals: u128, ratio: u128, fee: u128) -> Config {
    Config {
        owner: Addr::unchecked(owner),
        eligible_collateral: Addr::unchecked(collateral),
        decimals,
        initial_margin_ratio: ratio,
        maintenance_margin_ratio: ratio,
        liquidation_fee: fee,
    }
}

fn position(vamm: &str, trader: &str, size: u128) -> Position {
    Position {
        vamm: Addr::unchecked(vamm),
        trader: Addr::unchecked(trader),
        direction: Direction::AddToAmm,
        size,
        margin: 2 * size,
        notional: 3 * size,
        premium_fraction: 7,
        liquidity_history_index: 1,
        timestamp: 1_000_000_000,
    }
}

fn ok_addrs(raw: &[&str]) -> Vec<Result<Addr, StdError>> {
    raw.iter().map(|s| Ok(Addr::unchecked(s))).collect()
}

#[test]
fn test_instantiation() {
    let mut store = EngineStore::new();
    let cfg = config("owner", "token", 10, 100, 100);
    store_config(&mut store, &cfg).unwrap();
    store_vamm(&mut store, &ok_addrs(&["test"])).unwrap();

    let got = read_config(&store).unwrap();
    assert_eq!(got.owner.as_str(), "owner");
    assert_eq!(got.eligible_collateral.as_str(), "token");
    assert_eq!(got.decimals, 10);
    assert_eq!(got.initial_margin_ratio, 100);
    assert_eq!(got.maintenance_margin_ratio, 100);
    assert_eq!(got.liquidation_fee, 100);

    let vamms = read_vamm(&store).unwrap();
    assert_eq!(vamms.vamm.len(), 1);
    assert_eq!(vamms.vamm[0].as_str(), "test");
}

#[test]
fn test_update_config() {
    let mut store = EngineStore::new();
    store_config(&mut store, &config("owner", "token", 10, 100, 100)).unwrap();
    store_vamm(&mut store, &ok_addrs(&["test"])).unwrap();

    // The dispatcher authorizes the owner "owner" and commits the update.
    store_config(&mut store, &config("addr0001", "token", 10, 100, 100)).unwrap();
    let got = read_config(&store).unwrap();
    assert_eq!(got.owner.as_str(), "addr0001");
    assert_eq!(got.eligible_collateral.as_str(), "token");

    // A later attempt by the old owner is refused by the dispatcher before it
    // reaches the store: the store still reflects the last committed write.
    let got = read_config(&store).unwrap();
    assert_eq!(got.owner.as_str(), "addr0001");
}

#[test]
fn test_config_round_trip() {
    let mut store = EngineStore::new();
    let cfg = config("alice", "usdc", 6, 50, 25);
    store_config(&mut store, &cfg).unwrap();
    let got = read_config(&store).unwrap();
    assert_eq!(got.owner.as_str(), "alice");
    assert_eq!(got.eligible_collateral.as_str(), "usdc");
    assert_eq!(got.decimals, 6);
    assert_eq!(got.initial_margin_ratio, 50);
    assert_eq!(got.maintenance_margin_ratio, 50);
    assert_eq!(got.liquidation_fee, 25);
}

#[test]
fn test_read_config_uninitialized() {
    let store = EngineStore::new();
    assert_eq!(read_config(&store).unwrap_err(), StdError::NotFound);
}

#[test]
fn test_read_vamm_uninitialized() {
    let store = EngineStore::new();
    assert_eq!(read_vamm(&store).unwrap_err(), StdError::NotFound);
}

#[test]
fn test_vamm_round_trip_keeps_order() {
    let mut store = EngineStore::new();
    store_vamm(&mut store, &ok_addrs(&["vamm_b", "vamm_a", "vamm_c"])).unwrap();
    let got = read_vamm(&store).unwrap();
    let raw: Vec<&str> = got.vamm.iter().map(|a| a.as_str()).collect();
    assert_eq!(raw, vec!["vamm_b", "vamm_a", "vamm_c"]);

    assert!(got.is_vamm("vamm_a"));
    assert!(got.is_vamm("vamm_b"));
    assert!(got.is_vamm("vamm_c"));
    assert!(!got.is_vamm("vamm_d"));
    // Exact match only: no normalization, case matters.
    assert!(!got.is_vamm("VAMM_A"));
    assert!(!got.is_vamm("vamm_a "));
}

#[test]
fn test_vamm_replaced_wholesale() {
    let mut store = EngineStore::new();
    store_vamm(&mut store, &ok_addrs(&["one", "two"])).unwrap();
    store_vamm(&mut store, &ok_addrs(&["three"])).unwrap();
    let got = read_vamm(&store).unwrap();
    assert_eq!(got.vamm.len(), 1);
    assert_eq!(got.vamm[0].as_str(), "three");
}

#[test]
fn test_vamm_update_all_or_nothing() {
    let mut store = EngineStore::new();
    store_vamm(&mut store, &ok_addrs(&["kept"])).unwrap();

    let mixed: Vec<Result<Addr, StdError>> = vec![
        Ok(Addr::unchecked("fresh")),
        Err(StdError::InvalidAddress),
        Ok(Addr::unchecked("later")),
    ];
    let err = store_vamm(&mut store, &mixed).unwrap_err();
    assert_eq!(err, StdError::InvalidAddress);

    // The previously stored registry is untouched.
    let got = read_vamm(&store).unwrap();
    assert_eq!(got.vamm.len(), 1);
    assert_eq!(got.vamm[0].as_str(), "kept");
}

#[test]
fn test_map_validate_reports_first_rejection() {
    let verdicts: Vec<Result<Addr, StdError>> =
        vec![Ok(Addr::unchecked("good")), Err(StdError::InvalidAddress)];
    assert_eq!(map_validate(&verdicts).unwrap_err(), StdError::InvalidAddress);

    let all_good = ok_addrs(&["a", "b"]);
    let validated = map_validate(&all_good).unwrap();
    assert_eq!(validated.len(), 2);
    assert_eq!(validated[0].as_str(), "a");
    assert_eq!(validated[1].as_str(), "b");
}

#[test]
fn test_position_round_trip() {
    let mut store = EngineStore::new();
    let pos = position("vamm1", "trader1", 42);
    store_position(&mut store, &pos).unwrap();

    let got = read_position(
        &store,
        &Addr::unchecked("vamm1"),
        &Addr::unchecked("trader1"),
    )
    .unwrap()
    .unwrap();
    assert_eq!(got.vamm.as_str(), "vamm1");
    assert_eq!(got.trader.as_str(), "trader1");
    assert_eq!(got.direction, Direction::AddToAmm);
    assert_eq!(got.size, 42);
    assert_eq!(got.margin, 84);
    assert_eq!(got.notional, 126);
    assert_eq!(got.premium_fraction, 7);
    assert_eq!(got.liquidity_history_index, 1);
    assert_eq!(got.timestamp, 1_000_000_000);
}

#[test]
fn test_position_overwritten_not_merged() {
    let mut store = EngineStore::new();
    store_position(&mut store, &position("vamm1", "trader1", 42)).unwrap();
    let mut second = position("vamm1", "trader1", 5);
    second.direction = Direction::RemoveFromAmm;
    store_position(&mut store, &second).unwrap();

    let got = read_position(
        &store,
        &Addr::unchecked("vamm1"),
        &Addr::unchecked("trader1"),
    )
    .unwrap()
    .unwrap();
    assert_eq!(got.size, 5);
    assert_eq!(got.direction, Direction::RemoveFromAmm);
}

#[test]
fn test_positions_keyed_per_pair() {
    let mut store = EngineStore::new();
    store_position(&mut store, &position("vamm1", "trader1", 1)).unwrap();
    store_position(&mut store, &position("vamm1", "trader2", 2)).unwrap();
    store_position(&mut store, &position("vamm2", "trader1", 3)).unwrap();

    let load = |store: &EngineStore, v: &str, t: &str| {
        read_position(store, &Addr::unchecked(v), &Addr::unchecked(t))
            .unwrap()
            .unwrap()
            .size
    };
    assert_eq!(load(&store, "vamm1", "trader1"), 1);
    assert_eq!(load(&store, "vamm1", "trader2"), 2);
    assert_eq!(load(&store, "vamm2", "trader1"), 3);
}

#[test]
fn test_read_position_never_stored_is_none() {
    let mut store = EngineStore::new();
    let got = read_position(
        &store,
        &Addr::unchecked("vamm1"),
        &Addr::unchecked("trader1"),
    )
    .unwrap();
    assert!(got.is_none());

    store_position(&mut store, &position("vamm1", "trader1", 9)).unwrap();
    let other = read_position(
        &store,
        &Addr::unchecked("vamm1"),
        &Addr::unchecked("trader2"),
    )
    .unwrap();
    assert!(other.is_none());
}

#[test]
fn test_default_position_is_zero_sentinel() {
    let pos = Position::default();
    assert_eq!(pos.vamm.as_str(), "");
    assert_eq!(pos.trader.as_str(), "");
    assert_eq!(pos.direction, Direction::AddToAmm);
    assert_eq!(pos.size, 0);
    assert_eq!(pos.margin, 0);
    assert_eq!(pos.notional, 0);
    assert_eq!(pos.premium_fraction, 0);
    assert_eq!(pos.liquidity_history_index, 0);
    assert_eq!(pos.timestamp, 0);
}

#[test]
fn test_tentative_slot_state_machine() {
    let mut store = EngineStore::new();

    // Clearing an empty slot is a no-op, not an error.
    remove_tmp_position(&mut store);
    assert!(read_tmp_position(&store).unwrap().is_none());

    // Peek after stage returns the staged value without clearing it.
    store_tmp_position(&mut store, &position("vamm1", "trader1", 11)).unwrap();
    let staged = read_tmp_position(&store).unwrap().unwrap();
    assert_eq!(staged.size, 11);
    let again = read_tmp_position(&store).unwrap().unwrap();
    assert_eq!(again.size, 11);

    // Staging again overwrites, keeping no history.
    store_tmp_position(&mut store, &position("vamm1", "trader1", 12)).unwrap();
    assert_eq!(read_tmp_position(&store).unwrap().unwrap().size, 12);

    // Peek after clear returns none.
    remove_tmp_position(&mut store);
    assert!(read_tmp_position(&store).unwrap().is_none());
}

#[test]
fn test_tentative_slot_independent_of_positions() {
    let mut store = EngineStore::new();
    store_position(&mut store, &position("vamm1", "trader1", 1)).unwrap();
    store_tmp_position(&mut store, &position("vamm1", "trader1", 99)).unwrap();
    remove_tmp_position(&mut store);

    // The keyed store still holds the committed record.
    let got = read_position(
        &store,
        &Addr::unchecked("vamm1"),
        &Addr::unchecked("trader1"),
    )
    .unwrap()
    .unwrap();
    assert_eq!(got.size, 1);
}

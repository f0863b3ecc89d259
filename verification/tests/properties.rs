use shade::account::MerchantAccount;
use shade::directory::MerchantDirectory;
use shade::errors::ContractError;
use shade::events::{Event, FieldValue};
use shade::reentrancy::{enter, exit, ReentrancyGuard};
use shade::shade::Shade;
use shade::token_list::TokenList;
use shade::types::{CodeReference, MerchantRecord, PrincipalId, TokenBalance};
use shade::upgrade::upgrade;

const NOW: u64 = 1_718_000_000;

fn id(text: &str) -> PrincipalId {
    PrincipalId::new(text)
}

fn registry_with_admin() -> (Shade, PrincipalId) {
    let mut registry = Shade::new();
    let admin = id("admin");
    registry.initialize(admin.clone()).unwrap();
    (registry, admin)
}

fn account_with_manager() -> (MerchantAccount, PrincipalId) {
    let mut account = MerchantAccount::new(id("account"));
    let manager = id("manager");
    account.initialize(id("merchant"), manager.clone(), 1).unwrap();
    (account, manager)
}

fn texts(ids: &[PrincipalId]) -> Vec<String> {
    ids.iter().map(|id| id.as_str().to_string()).collect()
}

#[test]
fn error_codes_are_distinct_and_fixed() {
    assert_eq!(ContractError::AlreadyInitialized.code(), 1);
    assert_eq!(ContractError::NotInitialized.code(), 2);
    assert_eq!(ContractError::NotAuthorized.code(), 3);
    assert_eq!(ContractError::MerchantNotFound.code(), 4);
    assert_eq!(ContractError::InvalidToken.code(), 5);
    assert_eq!(ContractError::Reentrancy.code(), 6);
}

#[test]
fn principal_ids_compare_by_text() {
    assert_eq!(id("GABC"), id("GABC"));
    assert_ne!(id("GABC"), id("GABD"));
    assert_ne!(id("GABC"), id("GAB"));
    assert_eq!(id("GABC").as_str(), "GABC");
    assert_eq!(id("GABC").clone(), id("GABC"));
}

#[test]
fn code_references_compare_by_bytes() {
    let a = CodeReference { bytes: [7u8; 32] };
    let mut other = [7u8; 32];
    assert_eq!(a, CodeReference { bytes: other });
    other[31] = 8;
    assert_ne!(a, CodeReference { bytes: other });
}

#[test]
fn guard_is_a_two_state_machine() {
    let mut guard = ReentrancyGuard::Idle;
    assert!(!guard.is_set());
    assert_eq!(enter(&mut guard), Ok(()));
    assert_eq!(guard, ReentrancyGuard::InCall);
    assert!(guard.is_set());
    assert_eq!(enter(&mut guard), Err(ContractError::Reentrancy));
    assert_eq!(guard, ReentrancyGuard::InCall);
    exit(&mut guard);
    assert_eq!(guard, ReentrancyGuard::Idle);
    exit(&mut guard);
    assert_eq!(guard, ReentrancyGuard::Idle);
    assert_eq!(enter(&mut guard), Ok(()));
}

#[test]
fn token_list_keeps_first_seen_order() {
    let mut list = TokenList::new();
    assert_eq!(list.len(), 0);
    assert!(list.insert(id("x")));
    assert!(list.insert(id("y")));
    assert!(!list.insert(id("x")));
    assert!(list.insert(id("z")));
    assert_eq!(texts(&list.to_vec()), ["x", "y", "z"]);
    assert_eq!(list.position(&id("y")), Some(1));
    assert_eq!(list.position(&id("w")), None);
    assert!(list.contains(&id("z")));

    assert!(list.remove(&id("y")));
    assert!(!list.remove(&id("y")));
    assert_eq!(texts(&list.to_vec()), ["x", "z"]);
    assert_eq!(list.len(), 2);
}

#[test]
fn token_list_from_vec_refuses_duplicates() {
    let list = TokenList::from_vec(vec![id("x"), id("y"), id("z")]).unwrap();
    assert_eq!(texts(&list.to_vec()), ["x", "y", "z"]);
    assert!(TokenList::from_vec(vec![id("x"), id("y"), id("x")]).is_none());
    assert!(TokenList::from_vec(vec![id("x"), id("x")]).is_none());
    assert_eq!(TokenList::from_vec(Vec::new()).unwrap().len(), 0);
}

#[test]
fn directory_hands_out_ids_in_sequence() {
    let mut directory = MerchantDirectory::new();
    assert_eq!(directory.register(id("a")), 1);
    assert_eq!(directory.register(id("b")), 2);
    assert_eq!(directory.register(id("a")), 3);
    assert_eq!(directory.len(), 3);
    assert_eq!(
        directory.get(2).unwrap(),
        MerchantRecord { id: 2, address: id("b"), active: true }
    );
    assert_eq!(directory.get(0), Err(ContractError::MerchantNotFound));
    assert_eq!(directory.get(4), Err(ContractError::MerchantNotFound));

    assert_eq!(directory.set_status(3, false), Ok(()));
    assert_eq!(directory.set_status(4, false), Err(ContractError::MerchantNotFound));
    assert_eq!(
        directory.records(),
        vec![
            MerchantRecord { id: 1, address: id("a"), active: true },
            MerchantRecord { id: 2, address: id("b"), active: true },
            MerchantRecord { id: 3, address: id("a"), active: false },
        ]
    );
}

#[test]
fn directory_from_records_wants_ids_in_sequence() {
    let good = vec![
        MerchantRecord { id: 1, address: id("a"), active: false },
        MerchantRecord { id: 2, address: id("b"), active: true },
    ];
    let directory = MerchantDirectory::from_records(good.clone()).unwrap();
    assert_eq!(directory.records(), good);

    let gap = vec![
        MerchantRecord { id: 1, address: id("a"), active: true },
        MerchantRecord { id: 3, address: id("b"), active: true },
    ];
    assert!(MerchantDirectory::from_records(gap).is_none());
    let zero = vec![MerchantRecord { id: 0, address: id("a"), active: true }];
    assert!(MerchantDirectory::from_records(zero).is_none());
}

#[test]
fn adding_a_token_twice_leaves_one_membership() {
    let (mut registry, admin) = registry_with_admin();
    let token = id("token");

    let first = registry.add_accepted_token(&admin, token.clone(), true, NOW).unwrap();
    assert_eq!(first, Some(Event::TokenAdded { token: token.clone(), timestamp: NOW }));
    let second = registry.add_accepted_token(&admin, token.clone(), true, NOW + 1).unwrap();
    assert_eq!(second, None);

    assert!(registry.is_accepted_token(&token));
    assert_eq!(registry.accepted_count(), 1);
    assert_eq!(texts(&registry.accepted_tokens()), ["token"]);
}

#[test]
fn removing_an_absent_token_changes_nothing() {
    let (mut registry, admin) = registry_with_admin();
    registry.add_accepted_token(&admin, id("kept"), true, NOW).unwrap();

    assert_eq!(registry.remove_accepted_token(&admin, &id("absent"), NOW), Ok(None));
    assert_eq!(registry.accepted_count(), 1);
    assert!(registry.is_accepted_token(&id("kept")));

    assert_eq!(
        registry.remove_accepted_token(&admin, &id("kept"), NOW + 2),
        Ok(Some(Event::TokenRemoved { token: id("kept"), timestamp: NOW + 2 }))
    );
    assert_eq!(registry.accepted_count(), 0);
    assert_eq!(registry.remove_accepted_token(&admin, &id("kept"), NOW + 3), Ok(None));
}

#[test]
fn unknown_merchants_are_not_found() {
    let (mut registry, _) = registry_with_admin();
    for unknown in [0u64, 1, 2, 999, u64::MAX] {
        assert_eq!(registry.get_merchant(unknown), Err(ContractError::MerchantNotFound));
        assert_eq!(registry.is_merchant_active(unknown), Err(ContractError::MerchantNotFound));
    }
    assert_eq!(registry.register_merchant(id("m")), Ok(1));
    assert_eq!(
        registry.get_merchant(1),
        Ok(MerchantRecord { id: 1, address: id("m"), active: true })
    );
    for unknown in [0u64, 2, 999, u64::MAX] {
        assert_eq!(registry.get_merchant(unknown), Err(ContractError::MerchantNotFound));
        assert_eq!(registry.is_merchant_active(unknown), Err(ContractError::MerchantNotFound));
    }
}

#[test]
fn merchants_register_without_an_admin() {
    let mut registry = Shade::new();
    assert_eq!(registry.register_merchant(id("first")), Ok(1));
    assert_eq!(registry.register_merchant(id("second")), Ok(2));
    assert_eq!(registry.merchant_count(), 2);
    assert_eq!(registry.get_merchant(2).unwrap().address, id("second"));
}

#[test]
fn repeated_add_token_keeps_one_entry_at_the_first_occurrence() {
    let (mut account, manager) = account_with_manager();
    for token in ["x", "y", "x", "z", "y", "x"] {
        assert_eq!(account.add_token(&manager, id(token)), Ok(()));
    }
    let balances = account.get_balances(|token: &PrincipalId, _: &PrincipalId| {
        token.as_str().len() as i128
    });
    assert_eq!(
        balances,
        vec![
            TokenBalance { token: id("x"), balance: 1 },
            TokenBalance { token: id("y"), balance: 1 },
            TokenBalance { token: id("z"), balance: 1 },
        ]
    );
    assert_eq!(texts(&account.tokens()), ["x", "y", "z"]);
}

#[test]
fn balances_are_asked_for_the_accounts_own_address() {
    let (mut account, manager) = account_with_manager();
    account.add_token(&manager, id("x")).unwrap();
    let ledger = |token: &PrincipalId, holder: &PrincipalId| -> i128 {
        if holder.as_str() == "account" && token.as_str() == "x" {
            -40
        } else if holder.as_str() == "account" {
            7
        } else {
            1_000_000
        }
    };
    assert_eq!(account.get_balance(&id("x"), ledger), -40);
    assert_eq!(account.get_balance(&id("untracked"), ledger), 7);
    assert_eq!(
        account.get_balances(ledger),
        vec![TokenBalance { token: id("x"), balance: -40 }]
    );
    assert_eq!(account.address(), id("account"));
}

#[test]
fn registry_refuses_every_mutation_while_a_call_is_in_flight() {
    let (mut registry, admin) = registry_with_admin();
    registry.add_accepted_token(&admin, id("token"), true, NOW).unwrap();
    registry.register_merchant(id("m")).unwrap();

    assert_eq!(registry.enter(), Ok(()));
    assert!(registry.in_call());
    assert_eq!(registry.enter(), Err(ContractError::Reentrancy));

    let code = CodeReference { bytes: [1u8; 32] };
    assert_eq!(registry.initialize(id("x")), Err(ContractError::Reentrancy));
    assert_eq!(
        registry.add_accepted_token(&admin, id("other"), true, NOW),
        Err(ContractError::Reentrancy)
    );
    assert_eq!(
        registry.remove_accepted_token(&admin, &id("token"), NOW),
        Err(ContractError::Reentrancy)
    );
    assert_eq!(registry.register_merchant(id("n")), Err(ContractError::Reentrancy));
    assert_eq!(
        registry.set_merchant_status(&admin, 1, false, NOW),
        Err(ContractError::Reentrancy)
    );
    assert_eq!(registry.upgrade(&admin, code, NOW), Err(ContractError::Reentrancy));

    assert!(registry.in_call());
    assert!(registry.is_accepted_token(&id("token")));
    assert!(!registry.is_accepted_token(&id("other")));
    assert_eq!(registry.merchant_count(), 1);
    assert_eq!(registry.is_merchant_active(1), Ok(true));

    registry.exit();
    assert!(!registry.in_call());
    assert_eq!(registry.register_merchant(id("n")), Ok(2));
    assert!(!registry.in_call());
}

#[test]
fn marker_is_cleared_after_a_failed_call() {
    let (mut registry, admin) = registry_with_admin();
    assert_eq!(
        registry.set_merchant_status(&admin, 5, true, NOW),
        Err(ContractError::MerchantNotFound)
    );
    assert!(!registry.in_call());
    assert_eq!(
        registry.add_accepted_token(&id("stranger"), id("t"), true, NOW),
        Err(ContractError::NotAuthorized)
    );
    assert!(!registry.in_call());
    assert_eq!(registry.add_accepted_token(&admin, id("t"), true, NOW).unwrap().is_some(), true);

    let (mut account, manager) = account_with_manager();
    assert_eq!(account.add_token(&id("stranger"), id("t")), Err(ContractError::NotAuthorized));
    assert!(!account.in_call());
    assert_eq!(account.add_token(&manager, id("t")), Ok(()));
}

#[test]
fn account_refuses_every_mutation_while_a_call_is_in_flight() {
    let (mut account, manager) = account_with_manager();
    assert_eq!(account.enter(), Ok(()));
    assert_eq!(account.enter(), Err(ContractError::Reentrancy));
    assert_eq!(account.add_token(&manager, id("t")), Err(ContractError::Reentrancy));
    assert_eq!(
        account.initialize(id("m"), id("g"), 2),
        Err(ContractError::Reentrancy)
    );
    assert!(!account.has_token(&id("t")));
    assert!(account.in_call());
    account.exit();
    assert_eq!(account.add_token(&manager, id("t")), Ok(()));
    assert!(account.has_token(&id("t")));
}

#[test]
fn non_admin_calls_leave_the_state_unchanged() {
    let (mut registry, admin) = registry_with_admin();
    let stranger = id("stranger");
    registry.add_accepted_token(&admin, id("token"), true, NOW).unwrap();
    registry.register_merchant(id("m")).unwrap();

    assert_eq!(
        registry.set_merchant_status(&stranger, 1, false, NOW),
        Err(ContractError::NotAuthorized)
    );
    assert_eq!(
        registry.set_merchant_status(&stranger, 999, false, NOW),
        Err(ContractError::NotAuthorized)
    );
    assert_eq!(
        registry.add_accepted_token(&stranger, id("other"), true, NOW),
        Err(ContractError::NotAuthorized)
    );
    assert_eq!(
        registry.add_accepted_token(&stranger, id("other"), false, NOW),
        Err(ContractError::NotAuthorized)
    );
    assert_eq!(
        registry.remove_accepted_token(&stranger, &id("token"), NOW),
        Err(ContractError::NotAuthorized)
    );

    assert_eq!(registry.is_merchant_active(1), Ok(true));
    assert_eq!(texts(&registry.accepted_tokens()), ["token"]);
    assert_eq!(registry.get_admin(), Ok(admin));
}

#[test]
fn guarded_calls_need_a_role_record() {
    let mut registry = Shade::new();
    let someone = id("someone");
    assert_eq!(registry.get_admin(), Err(ContractError::NotInitialized));
    assert_eq!(registry.assert_admin(&someone), Err(ContractError::NotInitialized));
    assert_eq!(
        registry.add_accepted_token(&someone, id("t"), true, NOW),
        Err(ContractError::NotInitialized)
    );
    assert_eq!(
        registry.remove_accepted_token(&someone, &id("t"), NOW),
        Err(ContractError::NotInitialized)
    );
    assert_eq!(
        registry.set_merchant_status(&someone, 1, true, NOW),
        Err(ContractError::NotInitialized)
    );
    assert_eq!(
        registry.upgrade(&someone, CodeReference { bytes: [0u8; 32] }, NOW),
        Err(ContractError::NotInitialized)
    );

    let mut account = MerchantAccount::new(id("account"));
    assert_eq!(account.add_token(&someone, id("t")), Err(ContractError::NotInitialized));
    assert_eq!(account.get_merchant(), Err(ContractError::NotInitialized));
    assert_eq!(account.get_manager(), Err(ContractError::NotInitialized));
    assert_eq!(account.merchant_id(), Err(ContractError::NotInitialized));
}

#[test]
fn invalid_token_is_refused_after_the_admin_check() {
    let (mut registry, admin) = registry_with_admin();
    assert_eq!(
        registry.add_accepted_token(&admin, id("no asset"), false, NOW),
        Err(ContractError::InvalidToken)
    );
    assert!(!registry.is_accepted_token(&id("no asset")));
    assert_eq!(registry.accepted_count(), 0);
}

#[test]
fn registry_end_to_end() {
    let mut registry = Shade::new();
    let admin = id("A");
    registry.initialize(admin.clone()).unwrap();

    assert_eq!(registry.register_merchant(id("M")), Ok(1));
    assert_eq!(registry.is_merchant_active(1), Ok(true));

    let last = registry.set_merchant_status(&admin, 1, false, NOW).unwrap();
    assert_eq!(registry.is_merchant_active(1), Ok(false));
    assert_eq!(
        last,
        Event::MerchantStatusChanged { merchant_id: 1, active: false, timestamp: NOW }
    );
    assert_eq!(last.topic(), "merchant_status_changed_event");
}

#[test]
fn status_event_is_emitted_even_without_a_change() {
    let (mut registry, admin) = registry_with_admin();
    registry.register_merchant(id("m")).unwrap();
    assert_eq!(
        registry.set_merchant_status(&admin, 1, true, NOW + 9),
        Ok(Event::MerchantStatusChanged { merchant_id: 1, active: true, timestamp: NOW + 9 })
    );
    assert_eq!(registry.is_merchant_active(1), Ok(true));
}

#[test]
fn account_end_to_end() {
    let mut account = MerchantAccount::new(id("account"));
    assert_eq!(account.initialize(id("M"), id("G"), 1), Ok(()));

    let minted = vec![(id("X"), id("account"), 100i128), (id("Y"), id("account"), 250i128)];
    let ledger = |token: &PrincipalId, holder: &PrincipalId| -> i128 {
        minted
            .iter()
            .find(|entry| entry.0 == *token && entry.1 == *holder)
            .map(|entry| entry.2)
            .unwrap_or(0)
    };

    assert_eq!(account.add_token(&id("G"), id("X")), Ok(()));
    assert_eq!(account.add_token(&id("G"), id("Y")), Ok(()));

    assert_eq!(
        account.get_balances(ledger),
        vec![
            TokenBalance { token: id("X"), balance: 100 },
            TokenBalance { token: id("Y"), balance: 250 },
        ]
    );
    assert_eq!(account.get_merchant(), Ok(id("M")));
    assert_eq!(account.get_manager(), Ok(id("G")));
    assert_eq!(account.merchant_id(), Ok(1));
}

#[test]
fn second_initialize_leaves_the_role_record() {
    let mut registry = Shade::new();
    assert_eq!(registry.initialize(id("first")), Ok(()));
    assert_eq!(registry.initialize(id("second")), Err(ContractError::AlreadyInitialized));
    assert_eq!(registry.initialize(id("first")), Err(ContractError::AlreadyInitialized));
    assert_eq!(registry.get_admin(), Ok(id("first")));
    assert_eq!(registry.assert_admin(&id("first")), Ok(()));
    assert_eq!(registry.assert_admin(&id("second")), Err(ContractError::NotAuthorized));

    let mut account = MerchantAccount::new(id("account"));
    assert_eq!(account.initialize(id("m1"), id("g1"), 1), Ok(()));
    assert_eq!(account.initialize(id("m2"), id("g2"), 2), Err(ContractError::AlreadyInitialized));
    assert_eq!(account.get_merchant(), Ok(id("m1")));
    assert_eq!(account.get_manager(), Ok(id("g1")));
    assert_eq!(account.merchant_id(), Ok(1));
}

#[test]
fn upgrade_is_decided_by_the_admin() {
    let (mut registry, admin) = registry_with_admin();
    let code = CodeReference { bytes: [0xabu8; 32] };

    let event = upgrade(&registry, &admin, code, NOW).unwrap();
    assert_eq!(event, Event::ContractUpgraded { new_code_reference: code, timestamp: NOW });
    assert_eq!(event.topic(), "contract_upgraded_event");
    assert_eq!(upgrade(&registry, &id("stranger"), code, NOW), Err(ContractError::NotAuthorized));

    assert_eq!(
        registry.upgrade(&admin, code, NOW + 1),
        Ok(Event::ContractUpgraded { new_code_reference: code, timestamp: NOW + 1 })
    );
    assert_eq!(registry.upgrade(&id("stranger"), code, NOW), Err(ContractError::NotAuthorized));
    assert!(!registry.in_call());

    let earlier = CodeReference { bytes: [0x01u8; 32] };
    assert_eq!(
        registry.upgrade(&admin, earlier, NOW + 2),
        Ok(Event::ContractUpgraded { new_code_reference: earlier, timestamp: NOW + 2 })
    );
}

#[test]
fn payloads_carry_each_key_once_in_order() {
    let code = CodeReference { bytes: [3u8; 32] };
    let events = [
        Event::TokenAdded { token: id("t"), timestamp: 11 },
        Event::TokenRemoved { token: id("t"), timestamp: 12 },
        Event::MerchantStatusChanged { merchant_id: 4, active: true, timestamp: 13 },
        Event::ContractUpgraded { new_code_reference: code, timestamp: 14 },
    ];
    let keys: Vec<Vec<&str>> = events
        .iter()
        .map(|event| event.payload().iter().map(|field| field.key).collect())
        .collect();
    assert_eq!(keys[0], ["token", "timestamp"]);
    assert_eq!(keys[1], ["token", "timestamp"]);
    assert_eq!(keys[2], ["merchant_id", "active", "timestamp"]);
    assert_eq!(keys[3], ["new_code_reference", "timestamp"]);

    let topics: Vec<&str> = events.iter().map(|event| event.topic()).collect();
    assert_eq!(
        topics,
        [
            "token_added_event",
            "token_removed_event",
            "merchant_status_changed_event",
            "contract_upgraded_event",
        ]
    );

    let upgraded = events[3].payload();
    match (&upgraded[0].value, &upgraded[1].value) {
        (FieldValue::Code(reference), FieldValue::Number(timestamp)) => {
            assert_eq!(*reference, code);
            assert_eq!(*timestamp, 14);
        }
        other => panic!("payload is {:?}", other),
    }
    let status = events[2].payload();
    match (&status[0].value, &status[1].value, &status[2].value) {
        (FieldValue::Number(merchant), FieldValue::Flag(active), FieldValue::Number(timestamp)) => {
            assert_eq!((*merchant, *active, *timestamp), (4, true, 13));
        }
        other => panic!("payload is {:?}", other),
    }
    assert_ne!(events[0], events[1]);
}

#[test]
fn registry_survives_a_round_trip_through_its_parts() {
    let (mut registry, admin) = registry_with_admin();
    registry.add_accepted_token(&admin, id("x"), true, NOW).unwrap();
    registry.add_accepted_token(&admin, id("y"), true, NOW).unwrap();
    registry.register_merchant(id("m")).unwrap();
    registry.set_merchant_status(&admin, 1, false, NOW).unwrap();

    let mut restored = Shade::restore(
        ReentrancyGuard::Idle,
        registry.get_admin().ok(),
        registry.accepted_tokens(),
        registry.merchants(),
    )
    .unwrap();
    assert_eq!(restored.get_admin(), Ok(admin.clone()));
    assert_eq!(texts(&restored.accepted_tokens()), ["x", "y"]);
    assert_eq!(restored.is_merchant_active(1), Ok(false));
    assert_eq!(restored.register_merchant(id("n")), Ok(2));

    let in_flight = Shade::restore(ReentrancyGuard::InCall, Some(admin), Vec::new(), Vec::new());
    assert!(in_flight.unwrap().in_call());

    assert!(Shade::restore(ReentrancyGuard::Idle, None, vec![id("x"), id("x")], Vec::new())
        .is_none());
    let stray = vec![MerchantRecord { id: 2, address: id("m"), active: true }];
    assert!(Shade::restore(ReentrancyGuard::Idle, None, Vec::new(), stray).is_none());
}

#[test]
fn account_survives_a_round_trip_through_its_parts() {
    let (mut account, manager) = account_with_manager();
    account.add_token(&manager, id("x")).unwrap();
    account.add_token(&manager, id("y")).unwrap();

    let identity = (
        account.get_merchant().unwrap(),
        account.get_manager().unwrap(),
        account.merchant_id().unwrap(),
    );
    let mut restored = MerchantAccount::restore(
        ReentrancyGuard::Idle,
        account.address(),
        Some(identity),
        account.tokens(),
    )
    .unwrap();
    assert_eq!(texts(&restored.tokens()), ["x", "y"]);
    assert_eq!(restored.get_merchant(), Ok(id("merchant")));
    assert_eq!(restored.add_token(&manager, id("x")), Ok(()));
    assert_eq!(texts(&restored.tokens()), ["x", "y"]);
    assert_eq!(restored.initialize(id("a"), id("b"), 3), Err(ContractError::AlreadyInitialized));

    let fresh =
        MerchantAccount::restore(ReentrancyGuard::Idle, id("account"), None, Vec::new()).unwrap();
    assert_eq!(fresh.get_merchant(), Err(ContractError::NotInitialized));
    assert!(
        MerchantAccount::restore(ReentrancyGuard::Idle, id("a"), None, vec![id("t"), id("t")])
            .is_none()
    );
}

use core_credit::chart_of_accounts::{AccountSpec, Chart, ChartOfAccountsError};
use core_credit::primitives::Idempotent;

fn spec(code: &[u64], parent: Option<&[u64]>, name: &str) -> AccountSpec {
    AccountSpec {
        code: code.to_vec(),
        parent: parent.map(|p| p.to_vec()),
        name: name.to_string(),
    }
}

fn sample_chart() -> (Chart, u128, u128, u128, u128) {
    let mut chart = Chart::new(1, "Test chart".to_string(), "ref-00000001".to_string());
    let root = match chart.create_node(spec(&[1], None, "Assets")) {
        Idempotent::Executed((None, id)) => id,
        other => panic!("{:?}", other),
    };
    let loans = match chart.create_node(spec(&[1, 1], Some(&[1]), "Loans")) {
        Idempotent::Executed((Some(parent), id)) => {
            assert_eq!(parent, root);
            id
        }
        other => panic!("{:?}", other),
    };
    let cash = match chart.create_node(spec(&[1, 2], Some(&[1]), "Cash")) {
        Idempotent::Executed((_, id)) => id,
        other => panic!("{:?}", other),
    };
    let facilities = match chart.create_node(spec(&[1, 1, 1], Some(&[1, 1]), "Facilities")) {
        Idempotent::Executed((Some(parent), id)) => {
            assert_eq!(parent, loans);
            id
        }
        other => panic!("{:?}", other),
    };
    (chart, root, loans, cash, facilities)
}

#[test]
fn chart_nodes_are_added_once() {
    let (mut chart, root, loans, cash, facilities) = sample_chart();
    assert_eq!(chart.nodes.len(), 4);
    let ids = [root, loans, cash, facilities];
    for i in 0..4 {
        for j in 0..i {
            assert_ne!(ids[i], ids[j]);
        }
    }
    assert!(matches!(chart.create_node(spec(&[1, 1], None, "Again")), Idempotent::Ignored));
    assert_eq!(chart.nodes.len(), 4);
}

#[test]
fn chart_ancestors_children_and_lookups() {
    let (chart, root, loans, cash, facilities) = sample_chart();
    assert_eq!(chart.ancestors(&vec![1, 1, 1]), vec![loans, root]);
    assert_eq!(chart.ancestors(&vec![1]), Vec::<u128>::new());
    assert_eq!(chart.ancestors(&vec![9]), Vec::<u128>::new());
    assert_eq!(chart.children(&vec![1]), vec![loans, cash]);
    assert_eq!(chart.children(&vec![1, 1]), vec![facilities]);
    assert_eq!(chart.all_trial_balance_accounts(), vec![loans, cash]);
    assert_eq!(chart.account_spec(&vec![1, 2]).map(|n| n.spec.name.clone()), Some("Cash".to_string()));
    assert_eq!(chart.account_set_id_from_code(&vec![1, 1]).unwrap(), loans);
    match chart.account_set_id_from_code(&vec![7, 7]) {
        Err(ChartOfAccountsError::CodeNotFoundInChart(code)) => assert_eq!(code, vec![7, 7]),
        Ok(_) => panic!("found a missing code"),
    }
}

use nprofile::args::{parse_key_value_pair, parse_key_value_pairs};
use nprofile::error::Error;
use nprofile::sequence::{plan_actions, CoreProfileAction, ProfileAction, Target};

fn targets() -> Vec<Target> {
    vec![
        Target { profile: 1, environment: None },
        Target { profile: 2, environment: Some("vpn".to_string()) },
        Target { profile: 0, environment: None },
    ]
}

fn order(action: ProfileAction) -> Vec<(usize, String, CoreProfileAction)> {
    plan_actions(&targets(), action, &"linux".to_string())
        .into_iter()
        .map(|a| (a.profile, a.environment, a.action))
        .collect()
}

#[test]
fn enable_runs_dependencies_first() {
    let e = CoreProfileAction::Enable;
    assert_eq!(
        order(ProfileAction::Enable),
        vec![(1, "linux".to_string(), e), (2, "vpn".to_string(), e), (0, "linux".to_string(), e)]
    );
}

#[test]
fn disable_runs_in_reverse() {
    let d = CoreProfileAction::Disable;
    assert_eq!(
        order(ProfileAction::Disable),
        vec![(0, "linux".to_string(), d), (2, "vpn".to_string(), d), (1, "linux".to_string(), d)]
    );
}

#[test]
fn reset_disables_all_then_enables_all() {
    let profiles: Vec<(usize, CoreProfileAction)> = order(ProfileAction::Reset).into_iter().map(|a| (a.0, a.2)).collect();
    let d = CoreProfileAction::Disable;
    let e = CoreProfileAction::Enable;
    assert_eq!(profiles, vec![(0, d), (2, d), (1, d), (1, e), (2, e), (0, e)]);
}

#[test]
fn empty_target_list_plans_nothing() {
    assert!(plan_actions(&Vec::new(), ProfileAction::Reset, &"linux".to_string()).is_empty());
}

#[test]
fn key_value_pair_splits_at_first_equals() {
    assert_eq!(parse_key_value_pair("ssid=a=b"), Ok(("ssid".to_string(), "a=b".to_string())));
    assert_eq!(parse_key_value_pair("device="), Ok(("device".to_string(), String::new())));
    assert_eq!(parse_key_value_pair("device"), Err(Error::InvalidArgument { argument: "device".to_string() }));
}

#[test]
fn key_value_pairs_split_at_commas() {
    assert_eq!(
        parse_key_value_pairs("ssid=MyWiFi,device=radio1"),
        Ok(vec![("ssid".to_string(), "MyWiFi".to_string()), ("device".to_string(), "radio1".to_string())])
    );
    assert_eq!(parse_key_value_pairs("a=1,"), Err(Error::InvalidArgument { argument: String::new() }));
    assert_eq!(parse_key_value_pairs("a=1,b"), Err(Error::InvalidArgument { argument: "b".to_string() }));
    assert_eq!(parse_key_value_pairs("été=ü"), Ok(vec![("été".to_string(), "ü".to_string())]));
}

use reserve_ledger::deployment::DeploymentMode;

#[test]
fn test_deployment_mode_from_string() {
    assert!(matches!(DeploymentMode::from("demo".to_string()), DeploymentMode::Demo));
    assert!(matches!(DeploymentMode::from("DEMO".to_string()), DeploymentMode::Demo));
    assert!(matches!(DeploymentMode::from("production".to_string()), DeploymentMode::Production));
    assert!(matches!(DeploymentMode::from("invalid".to_string()), DeploymentMode::Production));
}

#[test]
fn test_deployment_mode_helpers() {
    let demo = DeploymentMode::Demo;
    let prod = DeploymentMode::Production;

    assert!(demo.is_demo());
    assert!(!demo.is_production());
    assert!(!prod.is_demo());
    assert!(prod.is_production());
}

#[test]
fn deployment_mode_defaults_to_production() {
    assert_eq!(DeploymentMode::default(), DeploymentMode::Production);
    assert_eq!(DeploymentMode::from("Demo".to_string()), DeploymentMode::Demo);
    assert_eq!(DeploymentMode::from(String::new()), DeploymentMode::Production);
}

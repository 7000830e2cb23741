use darwin_v7::config::Config;
use darwin_v7::team::Team;
use std::collections::HashMap;

#[test]
fn config_holds_what_it_was_made_with() {
    let mut teams = HashMap::new();
    let team = Team::new(
        "team-a".to_string(),
        Some("/home/user/.v7/team-a".to_string()),
        Some("1ed99664-726e-4400-bc5d-3132b22ce60c".to_string()),
        None,
    );
    teams.insert("team-a".to_string(), team.clone());
    let config = Config::new(
        "https://darwin.v7labs.com".to_string(),
        "https://darwin.v7labs.com/api/".to_string(),
        "team-a".to_string(),
        teams,
    );
    assert_eq!(config.api_endpoint(), "https://darwin.v7labs.com/api/");
    assert_eq!(config.base_url(), "https://darwin.v7labs.com");
    let default_team = config.teams().get(config.default_team()).unwrap();
    assert_eq!(default_team.slug(), "team-a");
    assert_eq!(default_team.api_key().as_deref(), Some("1ed99664-726e-4400-bc5d-3132b22ce60c"));
    assert_eq!(default_team.datasets_dir().as_deref(), Some("/home/user/.v7/team-a"));
}

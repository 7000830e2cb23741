use darwin_v7::team::{find_team_members_by_email, Team, TeamMember};

fn member(user_id: u32, first: Option<&str>, last: Option<&str>, email: Option<&str>) -> TeamMember {
    TeamMember {
        id: 1,
        email: email.map(str::to_string),
        first_name: first.map(str::to_string),
        last_name: last.map(str::to_string),
        role: None,
        team_id: 2,
        user_id,
    }
}

#[test]
fn member_text_shows_id_name_and_email() {
    let m = member(320, Some("Kevin"), Some("Smith"), Some("kevin@mail.com"));
    assert_eq!(m.to_string(), "{id-320}Kevin Smith (kevin@mail.com)");
    let bare = member(7, None, None, None);
    assert_eq!(bare.to_string(), "{id-7}  ()");
}

#[test]
fn members_found_by_part_of_their_email() {
    let members = vec![
        member(1, None, None, Some("kevin@mail.com")),
        member(2, None, None, None),
        member(3, None, None, Some("ann@other.org")),
        member(4, None, None, Some("kev@mail.com")),
    ];
    assert_eq!(find_team_members_by_email(&members, "@mail.com"), vec![0, 3]);
    assert_eq!(find_team_members_by_email(&members, "kevin"), vec![0]);
    assert_eq!(find_team_members_by_email(&members, ""), vec![0, 1, 2, 3]);
    assert_eq!(find_team_members_by_email(&members, "nobody"), Vec::<usize>::new());
}

#[test]
fn team_getters() {
    let t = Team::new("team-b".to_string(), None, None, Some(9));
    assert_eq!(t.slug(), "team-b");
    assert_eq!(t.api_key().as_ref(), None);
    assert_eq!(t.datasets_dir().as_ref(), None);
    assert_eq!(t.team_id, Some(9));
}

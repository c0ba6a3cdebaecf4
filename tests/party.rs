use rustlabs::party::{DndPvp, Hero, Team};

fn names(team: &Team) -> Vec<&str> {
    team.heros.iter().map(|h| h.name.as_str()).collect()
}

#[test]
fn default_roster() {
    let p = DndPvp::default();
    assert!(!p.start_window_open);
    assert_eq!(p.teams.len(), 2);
    assert_eq!(p.teams[0].name, "Blue");
    assert_eq!(names(&p.teams[0]), vec!["Nagat'rok", "Nimeza", "Soverein"]);
    assert_eq!(names(&p.teams[1]), vec!["Thaldar", "Greedlock", "Piero"]);
    assert_eq!(p.teams[1].heros[1].img_path, "file://assets/elf.png");
}

#[test]
fn picked_heroes_move_and_teams_sort() {
    let mut p = DndPvp::default();
    p.teams[0].heros[1].toggle();
    p.teams[1].heros[0].toggle();
    p.send_heros_to_team(1);
    assert_eq!(names(&p.teams[0]), vec!["Nagat'rok", "Soverein"]);
    assert_eq!(names(&p.teams[1]), vec!["Greedlock", "Nimeza", "Piero", "Thaldar"]);
    assert_eq!(p.teams[1].name, "Red");
}

#[test]
fn sending_to_missing_team_changes_nothing() {
    let mut p = DndPvp::default();
    p.teams[0].heros[0].toggle();
    p.send_heros_to_team(2);
    assert_eq!(names(&p.teams[0]), vec!["Nagat'rok", "Nimeza", "Soverein"]);
    assert_eq!(names(&p.teams[1]), vec!["Thaldar", "Greedlock", "Piero"]);
    assert!(p.teams[0].heros[0].selected);
}

#[test]
fn sending_to_own_team_only_sorts() {
    let mut p = DndPvp::default();
    p.teams[1].heros[2].toggle();
    p.send_heros_to_team(1);
    assert_eq!(names(&p.teams[1]), vec!["Greedlock", "Piero", "Thaldar"]);
    assert_eq!(names(&p.teams[0]), vec!["Nagat'rok", "Nimeza", "Soverein"]);
}

#[test]
fn team_copies_members() {
    let heroes = [Hero::new("B".into(), "b.png".into()), Hero::new("A".into(), "a.png".into())];
    let t = Team::with_members("Green".into(), &heroes);
    assert_eq!(t.name, "Green");
    assert_eq!(names(&t), vec!["B", "A"]);
    assert!(!t.heros[0].selected);
}

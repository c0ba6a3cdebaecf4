use rustlabs::client::{decimal, males, sort_by_age, sort_by_name, Client, Gender};

fn roster() -> Vec<Client> {
    let people = [
        ("Александр", "Шувалов", Gender::Male, 24),
        ("Ольга", "Куликова", Gender::Female, 32),
        ("Олег", "Куликов", Gender::Male, 28),
        ("Николай", "Терехов", Gender::Male, 21),
        ("Анастасия", "Назарова", Gender::Female, 23),
        ("Александр", "Косаерв", Gender::Male, 38),
        ("Анастасия", "Гросс", Gender::Female, 31),
        ("Валерия", "Чёрная", Gender::Female, 21),
        ("Дарья", "Иванова", Gender::Female, 18),
        ("Владислав", "Кутузов", Gender::Male, 29),
        ("Никита", "Гросс", Gender::Male, 33),
        ("Мария", "Бойко", Gender::Female, 40),
    ];
    people
        .iter()
        .map(|(f, s, g, a)| Client::new(f.to_string(), s.to_string(), *g, *a))
        .collect()
}

#[test]
fn describe_line() {
    let c = Client::new("Ольга".into(), "Куликова".into(), Gender::Female, 32);
    assert_eq!(c.describe(), "Ольга Куликова, female, 32 years old");
    let c = Client::new("Олег".into(), "Куликов".into(), Gender::Male, 7);
    assert_eq!(c.describe(), "Олег Куликов, male, 7 years old");
}

#[test]
fn decimal_forms() {
    assert_eq!(decimal(0), "0");
    assert_eq!(decimal(9), "9");
    assert_eq!(decimal(10), "10");
    assert_eq!(decimal(100), "100");
    assert_eq!(decimal(255), "255");
    for n in 0..=255u8 {
        assert_eq!(decimal(n), n.to_string());
    }
}

#[test]
fn sorted_by_forename_then_surname() {
    let mut clients = roster();
    sort_by_name(&mut clients);
    let got: Vec<String> = clients.iter().map(|c| c.describe()).collect();
    let mut expected = roster();
    expected.sort_by(|a, b| a.forename.cmp(&b.forename).then(a.surname.cmp(&b.surname)));
    let expected: Vec<String> = expected.iter().map(|c| c.describe()).collect();
    assert_eq!(got, expected);
    assert_eq!(got[0], "Александр Косаерв, male, 38 years old");
    assert_eq!(got[1], "Александр Шувалов, male, 24 years old");
}

#[test]
fn sorted_by_age_then_males() {
    let mut clients = roster();
    sort_by_name(&mut clients);
    sort_by_age(&mut clients);
    let ages: Vec<u8> = clients.iter().map(|c| c.age).collect();
    assert_eq!(ages, vec![18, 21, 21, 23, 24, 28, 29, 31, 32, 33, 38, 40]);
    let men: Vec<String> = males(clients).iter().map(|c| c.describe()).collect();
    assert_eq!(
        men,
        vec![
            "Николай Терехов, male, 21 years old",
            "Александр Шувалов, male, 24 years old",
            "Олег Куликов, male, 28 years old",
            "Владислав Кутузов, male, 29 years old",
            "Никита Гросс, male, 33 years old",
            "Александр Косаерв, male, 38 years old",
        ]
    );
}

#[test]
fn empty_lists() {
    let mut none: Vec<Client> = Vec::new();
    sort_by_name(&mut none);
    sort_by_age(&mut none);
    assert!(none.is_empty());
    assert!(males(none).is_empty());
    assert_eq!(Gender::Male.label(), "male");
    assert_eq!(Gender::Female.label(), "female");
}

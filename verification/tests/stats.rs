use poker_board::query::presentation::stats;
use poker_board::query::Participant;

#[test]
fn it_should_ignore_0_votes() {
    let mut participants = vec![
        Participant::new("John".into()),
        Participant::new("Jane".into()),
        Participant::new("Jack".into()),
        Participant::new("Jill".into()),
    ];
    participants[0].vote = Some(0);
    participants[1].vote = Some(4);
    participants[2].vote = Some(5);
    participants[3].vote = Some(6);
    let stats = stats(participants);
    assert!(stats.is_some());
    let stats = stats.unwrap();
    assert_eq!(stats.average, 5);
    assert_eq!(stats.max, 6);
    assert_eq!(stats.min, 4);
}

#[test]
fn it_should_return_none_when_no_participants() {
    let participants = vec![];
    let stats = stats(participants);
    assert_eq!(stats, None);
}

#[test]
fn it_should_return_none_when_no_votes() {
    let participants = vec![Participant::new("John".into())];
    let stats = stats(participants);
    assert_eq!(stats, None);
}

#[test]
fn it_should_ignore_non_voted_participants_in_calculation() {
    let mut participants = vec![
        Participant::new("John".into()),
        Participant::new("Jane".into()),
        Participant::new("Jack".into()),
    ];
    participants[0].vote = Some(1);
    participants[1].vote = Some(2);
    let stats = stats(participants);
    assert!(stats.is_some());
    let stats = stats.unwrap();
    assert_eq!(stats.average, 2);
    assert_eq!(stats.max, 2);
    assert_eq!(stats.min, 1);
}

#[test]
fn it_should_return_some_stats_if_all_particpants_have_voted() {
    let mut participants = vec![
        Participant::new("John".into()),
        Participant::new("Jane".into()),
        Participant::new("Jack".into()),
    ];
    participants[0].vote = Some(1);
    participants[1].vote = Some(2);
    participants[2].vote = Some(3);
    let stats = stats(participants);
    assert!(stats.is_some());
    let stats = stats.unwrap();
    assert_eq!(stats.average, 2);
    assert_eq!(stats.max, 3);
    assert_eq!(stats.min, 1);
}

use haiku_bot::commands::{
    Commands, CountCommand, GetHaikuCommand, RandomHaikuCommand, SearchCommand, UptimeCommand,
};
use haiku_bot::dispatch::{count_reply, haiku_reply, Action, Reply, Uptime};
use haiku_bot::pager::HaikuRef;

#[test]
fn uptime_breaks_down_elapsed_time() {
    let start = 1_000;
    let elapsed_ms = ((2 * 86_400 + 3 * 3_600 + 4 * 60 + 59) * 1_000) + 999;
    let u = Uptime::between(start, start + elapsed_ms);
    assert_eq!(u, Uptime { days: 2, hours: 3, minutes: 4 });
}

#[test]
fn uptime_before_start_is_zero() {
    assert_eq!(Uptime::between(5_000, 1_000), Uptime { days: 0, hours: 0, minutes: 0 });
    assert_eq!(
        Uptime::between(i64::MIN, i64::MAX),
        Uptime { days: 213_503_982_334, hours: 14, minutes: 25 }
    );
}

#[test]
fn invoke_routes_each_command() {
    assert!(matches!(Commands::Uptime(UptimeCommand).invoke(None), Action::ReportUptime));
    match Commands::Count(CountCommand { phrase: "old pond".to_string() }).invoke(None) {
        Action::CountSyllables(p) => assert_eq!(p, "old pond"),
        other => panic!("unexpected {:?}", other),
    }
    assert!(matches!(
        Commands::GetHaiku(GetHaikuCommand { id: 3 }).invoke(Some(8)),
        Action::FetchHaiku { server_id: 8, id: 3 }
    ));
    assert!(matches!(
        Commands::RandomHaiku(RandomHaikuCommand).invoke(Some(8)),
        Action::FetchRandomHaiku { server_id: 8 }
    ));
}

#[test]
fn invoke_outside_a_server_replies_at_once() {
    assert!(matches!(
        Commands::GetHaiku(GetHaikuCommand { id: 3 }).invoke(None),
        Action::Reply(Reply::NotFound)
    ));
    assert!(matches!(
        Commands::RandomHaiku(RandomHaikuCommand).invoke(None),
        Action::Reply(Reply::NotFound)
    ));
    assert!(matches!(
        Commands::Search(SearchCommand { keywords: vec!["moon".to_string()] }).invoke(None),
        Action::Reply(Reply::NoResults)
    ));
}

#[test]
fn search_passes_its_keywords_on() {
    let c = Commands::Search(SearchCommand { keywords: vec!["autumn".to_string(), "moon".to_string()] });
    match c.invoke(Some(2)) {
        Action::SearchHaikus { server_id, keywords } => {
            assert_eq!(server_id, 2);
            assert_eq!(keywords, vec!["autumn", "moon"]);
        }
        other => panic!("unexpected {:?}", other),
    }
}

#[test]
fn count_and_fetch_replies() {
    match count_reply("old pond".to_string(), Some(2)) {
        Reply::Syllables { phrase, count } => assert_eq!((phrase.as_str(), count), ("old pond", 2)),
        other => panic!("unexpected {:?}", other),
    }
    assert!(matches!(count_reply("zzz".to_string(), None), Reply::CountFailed));
    match haiku_reply(Some(HaikuRef::new(5, "frog".to_string()))) {
        Reply::Haiku(h) => assert_eq!((h.id, h.content.as_str()), (5, "frog")),
        other => panic!("unexpected {:?}", other),
    }
    assert!(matches!(haiku_reply(None), Reply::NotFound));
}

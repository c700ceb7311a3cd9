use glaredb_pg::catalog::{
    commit_retry, mutate_step, CatalogMutator, CommitAction, CommitEvent, CommitFlow, CommitStage,
    MetastoreOutcome, MutateStep, MAX_COMMIT_ATTEMPTS,
};
use glaredb_pg::expand_array::{expand_text, ExpandArrayError, PgExpandArray, RuntimePreference};
use glaredb_pg::notice::NoticeSeverity;
use glaredb_pg::vars::{Dialect, Value};

#[test]
fn bool_settings() {
    for t in ["t", "TRUE", "On", "yes", "1"] {
        assert_eq!(<bool as Value>::try_parse(t), Some(true), "{}", t);
    }
    for f in ["f", "false", "OFF", "No", "0"] {
        assert_eq!(<bool as Value>::try_parse(f), Some(false), "{}", f);
    }
    assert_eq!(<bool as Value>::try_parse("maybe"), None);
    assert_eq!(<bool as Value>::try_parse(" on"), None);
    assert_eq!(true.format(), "on");
    assert_eq!(false.format(), "off");
    assert_eq!(<bool as Value>::try_parse(&true.format()), Some(true));
}

#[test]
fn number_settings() {
    assert_eq!(<i32 as Value>::try_parse("-42"), Some(-42));
    assert_eq!(<i32 as Value>::try_parse("+7"), Some(7));
    assert_eq!(<i32 as Value>::try_parse("2147483648"), None);
    assert_eq!(<i32 as Value>::try_parse("4x"), None);
    assert_eq!((-2147483648i32).format(), "-2147483648");
    assert_eq!(<usize as Value>::try_parse("10"), Some(10));
    assert_eq!(<usize as Value>::try_parse("-1"), None);
    assert_eq!(12usize.format(), "12");
}

#[test]
fn text_dialect_and_severity_settings() {
    assert_eq!(<String as Value>::try_parse("abc"), Some("abc".to_string()));
    assert_eq!("xyz".to_string().format(), "xyz");
    assert_eq!(<Dialect as Value>::try_parse("prql"), Some(Dialect::Prql));
    assert_eq!(<Dialect as Value>::try_parse("SQL"), None);
    assert_eq!(Dialect::Sql.format(), "sql");
    assert_eq!(<NoticeSeverity as Value>::try_parse("NOTICE"), Some(NoticeSeverity::Notice));
    assert_eq!(<NoticeSeverity as Value>::try_parse("notice"), None);
    assert_eq!(NoticeSeverity::Debug1.format(), "DEBUG1");
}

#[test]
fn expand_array_rows() {
    assert_eq!(expand_text("23 25 1043").unwrap(), vec![(23, 1), (25, 2), (1043, 3)]);
    assert_eq!(expand_text("").unwrap(), vec![]);
    assert_eq!(expand_text(" \t\n ").unwrap(), vec![]);
    assert_eq!(expand_text(" -1\t+2 ").unwrap(), vec![(-1, 1), (2, 2)]);
    match expand_text("1 x 3") {
        Err(ExpandArrayError::InvalidParamValue { param, expected }) => {
            assert_eq!(param, "x");
            assert_eq!(expected, "int2");
        }
        other => panic!("unexpected {:?}", other),
    }
    match expand_text("1 40000") {
        Err(ExpandArrayError::InvalidParamValue { param, .. }) => assert_eq!(param, "40000"),
        other => panic!("unexpected {:?}", other),
    }
    let long = "1 ".repeat(2049);
    match expand_text(&long) {
        Err(ExpandArrayError::String(m)) => assert_eq!(m, "_pg_expandarray input exceeds 4096 bytes"),
        other => panic!("unexpected {:?}", other),
    }
    let ok = "1 ".repeat(2048);
    assert_eq!(expand_text(&ok).unwrap().len(), 2048);
    let f = PgExpandArray;
    assert!(matches!(f.expand(&[]), Err(ExpandArrayError::InvalidNumArgs)));
    assert_eq!(f.expand(&["7".to_string()]).unwrap(), vec![(7, 1)]);
    assert_eq!(f.detect_runtime(RuntimePreference::Unspecified), RuntimePreference::Local);
    assert_eq!(f.detect_runtime(RuntimePreference::Remote), RuntimePreference::Remote);
    assert_eq!(f.name(), "_pg_expandarray");
}

#[test]
fn catalog_mutator_rules() {
    let m: CatalogMutator<u8> = CatalogMutator::empty();
    assert!(m.is_empty());
    assert_eq!(m.require_client().unwrap_err(), "metastore client not configured");
    let m = CatalogMutator::new(Some(3u8));
    assert!(!m.is_empty());
    assert_eq!(m.get_metastore_client(), Some(&3));
    assert_eq!(*m.require_client().unwrap(), 3);

    assert_eq!(mutate_step(MetastoreOutcome::Done, false), MutateStep::Ready);
    assert_eq!(mutate_step(MetastoreOutcome::Stale, false), MutateStep::RefreshAndRetry);
    assert_eq!(mutate_step(MetastoreOutcome::Stale, true), MutateStep::Fail);
    assert_eq!(mutate_step(MetastoreOutcome::Failed, false), MutateStep::Fail);

    let mut attempt = 0u32;
    let mut commits = 1;
    while let Some(next) = commit_retry(attempt, MetastoreOutcome::Stale) {
        attempt = next;
        commits += 1;
    }
    assert_eq!(commits, MAX_COMMIT_ATTEMPTS);
    assert_eq!(commit_retry(0, MetastoreOutcome::Done), None);
    assert_eq!(commit_retry(0, MetastoreOutcome::Failed), None);
}

#[test]
fn uuid_setting_round_trip() {
    let text = "550e8400-e29b-41d4-a716-446655440000";
    let u = <uuid::Uuid as Value>::try_parse(text).unwrap();
    assert_eq!(Value::format(&u), text);
    assert_eq!(Value::format(&uuid::Uuid::nil()), "00000000-0000-0000-0000-000000000000");
    assert!(<uuid::Uuid as Value>::try_parse("not-a-uuid").is_none());
}

#[test]
fn optional_setting_values() {
    assert_eq!(<Option<usize> as Value>::try_parse("42"), Some(Some(42)));
    assert_eq!(<Option<usize> as Value>::try_parse("None"), None);
    assert_eq!(<Option<usize> as Value>::try_parse("-1"), None);
    assert_eq!(Value::format(&Some(7usize)), "7");
    assert_eq!(Value::format(&None::<usize>), "None");
    let u = uuid::Uuid::nil();
    assert_eq!(<Option<uuid::Uuid> as Value>::try_parse("00000000-0000-0000-0000-000000000000"), Some(Some(u)));
}

#[test]
fn catalog_mutator_from_client() {
    let m: CatalogMutator<u32> = 7u32.into();
    assert!(!m.is_empty());
    assert_eq!(m.get_metastore_client(), Some(&7));
    let e: CatalogMutator<u32> = CatalogMutator::empty();
    assert!(e.is_empty());
    assert_eq!(e.require_client().unwrap_err(), "metastore client not configured");
}

#[test]
fn mutate_and_commit_flow() {
    // No client: the error comes back at once.
    let (f, a) = CommitFlow::start(3, false);
    assert_eq!(a, CommitAction::ReturnError);
    assert_eq!(f.stage, CommitStage::Finished);

    // A stale mutation is retried once against the fresh version, then
    // committed against the version it started from.
    let (f, a) = CommitFlow::start(3, true);
    assert_eq!(a, CommitAction::TryMutate(3));
    let (f, a) = f.step(CommitEvent::Mutated(MetastoreOutcome::Stale));
    assert_eq!(a, Some(CommitAction::Refresh));
    let (f, a) = f.step(CommitEvent::Refreshed(4));
    assert_eq!(a, Some(CommitAction::TryMutate(4)));
    let (f, a) = f.step(CommitEvent::Mutated(MetastoreOutcome::Done));
    assert_eq!(a, Some(CommitAction::Commit(3)));
    let (_, a) = f.step(CommitEvent::Committed(MetastoreOutcome::Done));
    assert_eq!(a, Some(CommitAction::ReturnState));

    // Commits that keep losing races stop after the limit.
    let (mut f, _) = CommitFlow::start(10, true);
    let mut commits = 0;
    for v in 11..100u64 {
        let (g, a) = f.step(CommitEvent::Mutated(MetastoreOutcome::Done));
        if matches!(a, Some(CommitAction::Commit(_))) {
            commits += 1;
        }
        let (g, a) = g.step(CommitEvent::Committed(MetastoreOutcome::Stale));
        f = g;
        if a == Some(CommitAction::ReturnError) {
            break;
        }
        let (g, _) = f.step(CommitEvent::Refreshed(v));
        f = g;
    }
    assert_eq!(commits, MAX_COMMIT_ATTEMPTS);
    assert_eq!(f.stage, CommitStage::Finished);
}

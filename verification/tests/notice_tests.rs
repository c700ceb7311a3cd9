use glaredb_pg::notice::{Notice, NoticeSeverity, SqlState};

#[test]
fn notice_severity_to_from_string() {
    fn assert_to_from(sev: NoticeSeverity) {
        assert_eq!(sev, NoticeSeverity::from_str(sev.as_str()).unwrap())
    }

    assert_to_from(NoticeSeverity::Debug5);
    assert_to_from(NoticeSeverity::Debug4);
    assert_to_from(NoticeSeverity::Debug3);
    assert_to_from(NoticeSeverity::Debug2);
    assert_to_from(NoticeSeverity::Debug1);
    assert_to_from(NoticeSeverity::Log);
    assert_to_from(NoticeSeverity::Notice);
    assert_to_from(NoticeSeverity::Warning);
    assert_to_from(NoticeSeverity::Error);
    assert_to_from(NoticeSeverity::Info);
}

#[test]
fn notice_severity_rejects_unknown_name() {
    let err = NoticeSeverity::from_str("loud").unwrap_err();
    assert_eq!(
        format!("{:?}", err),
        format!("{:?}", glaredb_pg::error::ReprError::String("unknown notice severity: loud".to_string()))
    );
    assert!(NoticeSeverity::from_str("warning").is_err());
}

#[test]
fn notice_severity_names() {
    assert_eq!(NoticeSeverity::Warning.as_str(), "WARNING");
    assert_eq!(NoticeSeverity::Debug5.as_str(), "DEBUG5");
}

#[test]
fn sqlstate_codes() {
    assert_eq!(SqlState::InFailedTransaction.as_code_str(), "25P02");
    assert_eq!(SqlState::SyntaxError.as_code_str(), "42601");
    assert_eq!(SqlState::InternalError.as_code_str(), "XX000");
}

#[test]
fn notice_constructors() {
    let n = Notice::info("hello".to_string());
    assert_eq!(n.severity, NoticeSeverity::Info);
    assert_eq!(n.message, "hello");
    let w = Notice::warning("careful".to_string());
    assert_eq!(w.severity, NoticeSeverity::Warning);
    assert_eq!(w.message, "careful");
}

#[test]
fn notice_severity_order_follows_declaration() {
    let all = [
        NoticeSeverity::Debug5,
        NoticeSeverity::Debug4,
        NoticeSeverity::Debug3,
        NoticeSeverity::Debug2,
        NoticeSeverity::Debug1,
        NoticeSeverity::Log,
        NoticeSeverity::Notice,
        NoticeSeverity::Warning,
        NoticeSeverity::Error,
        NoticeSeverity::Info,
    ];
    for (i, a) in all.iter().enumerate() {
        for (j, b) in all.iter().enumerate() {
            assert_eq!(a.partial_cmp(b), Some(i.cmp(&j)));
            assert_eq!(a.cmp(b), i.cmp(&j));
        }
    }
    assert!(NoticeSeverity::Info >= NoticeSeverity::Warning);
    assert!(NoticeSeverity::Notice < NoticeSeverity::Warning);
}

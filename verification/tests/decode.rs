use ticket_config::decode::{decode_each, read_signed, read_unsigned};
use ticket_config::document::find;
use ticket_config::{
    Account, Config, Document, Entity, Field, FieldFormatError, FromDocument, Monitor,
    SchemaDecodeFailure, Sessions, Slot, Ticket,
};

fn text(value: &str) -> Document {
    Document::Text(value.to_string())
}

fn record(entries: Vec<(&str, Document)>) -> Document {
    Document::Record(
        entries
            .into_iter()
            .map(|(name, value)| Field { name: name.to_string(), value })
            .collect(),
    )
}

fn ticket_entries() -> Vec<(&'static str, Document)> {
    vec![
        ("id", text("7788")),
        ("num", Document::Unsigned(2)),
        ("sessions", Document::Unsigned(1)),
        ("grade", Document::Unsigned(3)),
    ]
}

fn without(entries: Vec<(&'static str, Document)>, name: &str) -> Vec<(&'static str, Document)> {
    entries.into_iter().filter(|(key, _)| *key != name).collect()
}

fn with(
    mut entries: Vec<(&'static str, Document)>,
    name: &'static str,
    value: Document,
) -> Vec<(&'static str, Document)> {
    entries.retain(|(key, _)| *key != name);
    entries.push((name, value));
    entries
}

fn sessions_doc(index: u64, grades: &str) -> Document {
    record(vec![("index", Document::Unsigned(index)), ("grades", text(grades))])
}

fn monitor_entries() -> Vec<(&'static str, Document)> {
    vec![
        ("enable", Document::Bool(true)),
        ("interval", Document::Unsigned(1500)),
        (
            "sessions",
            Document::List(vec![sessions_doc(1, "1, 2 ,3"), sessions_doc(4, "5")]),
        ),
    ]
}

fn bare_account_entries(cookie: &str) -> Vec<(&'static str, Document)> {
    vec![
        ("cookie", text(cookie)),
        ("remark", text("first")),
        ("ticket", record(ticket_entries())),
    ]
}

fn full_account_entries() -> Vec<(&'static str, Document)> {
    let mut entries = bare_account_entries("sid=1");
    entries.push(("interval", Document::Unsigned(500)));
    entries.push(("earliest_submit_time", Document::Negative(-100)));
    entries.push(("request_time", Document::Unsigned(1700000000000)));
    entries.push(("retry_times", Document::Unsigned(3)));
    entries.push(("retry_interval", Document::Unsigned(200)));
    entries.push(("monitor", record(monitor_entries())));
    entries.push(("dingtalk_notify", Document::Bool(false)));
    entries.push(("dingtalk_token", text("token")));
    entries
}

fn failure_of<T: FromDocument>(doc: Document) -> SchemaDecodeFailure {
    match T::from_document(&doc) {
        Ok(_) => panic!("the document was decoded"),
        Err(failure) => failure,
    }
}

#[test]
fn find_gives_the_first_entry_of_a_name() {
    let fields = vec![
        Field { name: "a".to_string(), value: Document::Unsigned(1) },
        Field { name: "b".to_string(), value: Document::Unsigned(2) },
        Field { name: "a".to_string(), value: Document::Unsigned(3) },
    ];
    assert!(matches!(find(&fields, "a"), Some(Document::Unsigned(1))));
    assert!(matches!(find(&fields, "b"), Some(Document::Unsigned(2))));
    assert!(find(&fields, "c").is_none());
    assert!(find(&fields, "").is_none());
    assert!(find(&Vec::new(), "a").is_none());
}

#[test]
fn a_ticket_is_read_from_its_record() {
    let ticket = Ticket::from_document(&record(ticket_entries())).unwrap();
    assert_eq!(ticket.id, "7788");
    assert_eq!(ticket.num, 2);
    assert_eq!(ticket.sessions, 1);
    assert_eq!(ticket.grade, 3);
}

#[test]
fn a_ticket_without_id_is_refused() {
    assert_eq!(
        failure_of::<Ticket>(record(without(ticket_entries(), "id"))),
        SchemaDecodeFailure::MissingField(Slot::TicketId)
    );
}

#[test]
fn every_field_of_a_ticket_is_required() {
    assert_eq!(
        failure_of::<Ticket>(record(without(ticket_entries(), "num"))),
        SchemaDecodeFailure::MissingField(Slot::TicketNum)
    );
    assert_eq!(
        failure_of::<Ticket>(record(without(ticket_entries(), "sessions"))),
        SchemaDecodeFailure::MissingField(Slot::TicketSessions)
    );
    assert_eq!(
        failure_of::<Ticket>(record(without(ticket_entries(), "grade"))),
        SchemaDecodeFailure::MissingField(Slot::TicketGrade)
    );
    assert_eq!(
        failure_of::<Ticket>(record(vec![])),
        SchemaDecodeFailure::MissingField(Slot::TicketId)
    );
}

#[test]
fn a_field_of_the_wrong_shape_is_refused() {
    assert_eq!(
        failure_of::<Ticket>(record(with(ticket_entries(), "id", Document::Unsigned(7788)))),
        SchemaDecodeFailure::FieldMismatch(Slot::TicketId)
    );
    assert_eq!(
        failure_of::<Ticket>(record(with(ticket_entries(), "num", text("2")))),
        SchemaDecodeFailure::FieldMismatch(Slot::TicketNum)
    );
    assert_eq!(
        failure_of::<Ticket>(record(with(ticket_entries(), "sessions", Document::Negative(-1)))),
        SchemaDecodeFailure::FieldMismatch(Slot::TicketSessions)
    );
    assert_eq!(
        failure_of::<Ticket>(record(with(ticket_entries(), "grade", Document::Real))),
        SchemaDecodeFailure::FieldMismatch(Slot::TicketGrade)
    );
    assert_eq!(
        failure_of::<Ticket>(record(with(ticket_entries(), "id", Document::Null))),
        SchemaDecodeFailure::FieldMismatch(Slot::TicketId)
    );
}

#[test]
fn what_is_no_record_is_no_entity() {
    assert_eq!(
        failure_of::<Ticket>(Document::Null),
        SchemaDecodeFailure::EntityMismatch(Entity::Ticket)
    );
    assert_eq!(
        failure_of::<Sessions>(Document::List(vec![])),
        SchemaDecodeFailure::EntityMismatch(Entity::Sessions)
    );
    assert_eq!(
        failure_of::<Monitor>(text("on")),
        SchemaDecodeFailure::EntityMismatch(Entity::Monitor)
    );
    assert_eq!(
        failure_of::<Account>(Document::Unsigned(1)),
        SchemaDecodeFailure::EntityMismatch(Entity::Account)
    );
    assert_eq!(
        failure_of::<Config>(Document::Bool(true)),
        SchemaDecodeFailure::EntityMismatch(Entity::Config)
    );
}

#[test]
fn the_first_failing_field_in_declared_order_decides() {
    let entries = with(
        with(ticket_entries(), "grade", text("high")),
        "num",
        Document::Real,
    );
    assert_eq!(
        failure_of::<Ticket>(record(entries)),
        SchemaDecodeFailure::FieldMismatch(Slot::TicketNum)
    );
    assert_eq!(
        failure_of::<Ticket>(record(vec![("grade", text("high"))])),
        SchemaDecodeFailure::MissingField(Slot::TicketId)
    );
}

#[test]
fn fields_that_the_schema_does_not_name_are_passed_over() {
    let mut entries = ticket_entries();
    entries.insert(0, ("seat", text("A1")));
    entries.push(("note", Document::List(vec![Document::Real])));
    let ticket = Ticket::from_document(&record(entries)).unwrap();
    assert_eq!(ticket.id, "7788");
    assert_eq!(ticket.grade, 3);
}

#[test]
fn the_first_entry_of_a_repeated_name_is_taken() {
    let mut entries = ticket_entries();
    entries.push(("num", Document::Unsigned(9)));
    assert_eq!(Ticket::from_document(&record(entries)).unwrap().num, 2);
}

#[test]
fn sessions_hold_the_integers_of_their_grade_list() {
    let sessions = Sessions::from_document(&sessions_doc(4, "1, 2 ,3")).unwrap();
    assert_eq!(sessions.index, 4);
    assert_eq!(sessions.grades, vec![1, 2, 3]);
}

#[test]
fn a_faulty_grade_list_fails_its_sessions() {
    assert_eq!(
        failure_of::<Sessions>(sessions_doc(1, "1,,3")),
        SchemaDecodeFailure::FieldFormat(FieldFormatError::Empty)
    );
    assert_eq!(
        failure_of::<Sessions>(sessions_doc(1, "1,a,3")),
        SchemaDecodeFailure::FieldFormat(FieldFormatError::InvalidDigit)
    );
    assert_eq!(
        failure_of::<Sessions>(sessions_doc(1, "340282366920938463463374607431768211456")),
        SchemaDecodeFailure::FieldFormat(FieldFormatError::Overflow)
    );
    assert_eq!(
        failure_of::<Sessions>(sessions_doc(1, "")),
        SchemaDecodeFailure::FieldFormat(FieldFormatError::Empty)
    );
}

#[test]
fn a_grade_list_must_be_a_text() {
    assert_eq!(
        failure_of::<Sessions>(record(vec![
            ("index", Document::Unsigned(1)),
            ("grades", Document::List(vec![Document::Unsigned(1)])),
        ])),
        SchemaDecodeFailure::FieldMismatch(Slot::SessionsGrades)
    );
    assert_eq!(
        failure_of::<Sessions>(record(vec![
            ("index", Document::Unsigned(1)),
            ("grades", Document::Unsigned(1)),
        ])),
        SchemaDecodeFailure::FieldMismatch(Slot::SessionsGrades)
    );
    assert_eq!(
        failure_of::<Sessions>(record(vec![("index", Document::Unsigned(1))])),
        SchemaDecodeFailure::MissingField(Slot::SessionsGrades)
    );
    assert_eq!(
        failure_of::<Sessions>(record(vec![("grades", text("1"))])),
        SchemaDecodeFailure::MissingField(Slot::SessionsIndex)
    );
}

#[test]
fn a_monitor_is_read_with_its_sessions_in_order() {
    let monitor = Monitor::from_document(&record(monitor_entries())).unwrap();
    assert!(monitor.enable);
    assert_eq!(monitor.interval, 1500);
    assert_eq!(monitor.sessions.len(), 2);
    assert_eq!(monitor.sessions[0].index, 1);
    assert_eq!(monitor.sessions[0].grades, vec![1, 2, 3]);
    assert_eq!(monitor.sessions[1].index, 4);
    assert_eq!(monitor.sessions[1].grades, vec![5]);
}

#[test]
fn every_field_of_a_monitor_is_required() {
    assert_eq!(
        failure_of::<Monitor>(record(without(monitor_entries(), "enable"))),
        SchemaDecodeFailure::MissingField(Slot::MonitorEnable)
    );
    assert_eq!(
        failure_of::<Monitor>(record(without(monitor_entries(), "interval"))),
        SchemaDecodeFailure::MissingField(Slot::MonitorInterval)
    );
    assert_eq!(
        failure_of::<Monitor>(record(without(monitor_entries(), "sessions"))),
        SchemaDecodeFailure::MissingField(Slot::MonitorSessions)
    );
}

#[test]
fn a_monitor_refuses_fields_of_the_wrong_shape() {
    assert_eq!(
        failure_of::<Monitor>(record(with(monitor_entries(), "enable", Document::Unsigned(1)))),
        SchemaDecodeFailure::FieldMismatch(Slot::MonitorEnable)
    );
    assert_eq!(
        failure_of::<Monitor>(record(with(monitor_entries(), "interval", Document::Negative(-5)))),
        SchemaDecodeFailure::FieldMismatch(Slot::MonitorInterval)
    );
    assert_eq!(
        failure_of::<Monitor>(record(with(monitor_entries(), "sessions", sessions_doc(1, "1")))),
        SchemaDecodeFailure::FieldMismatch(Slot::MonitorSessions)
    );
    assert_eq!(
        failure_of::<Monitor>(record(with(
            monitor_entries(),
            "sessions",
            Document::List(vec![sessions_doc(1, "1"), Document::Null]),
        ))),
        SchemaDecodeFailure::EntityMismatch(Entity::Sessions)
    );
    assert_eq!(
        failure_of::<Monitor>(record(with(
            monitor_entries(),
            "sessions",
            Document::List(vec![sessions_doc(1, "x"), Document::Null]),
        ))),
        SchemaDecodeFailure::FieldFormat(FieldFormatError::InvalidDigit)
    );
}

#[test]
fn a_monitor_may_watch_no_sessions() {
    let monitor = Monitor::from_document(&record(with(
        monitor_entries(),
        "sessions",
        Document::List(vec![]),
    )))
    .unwrap();
    assert!(monitor.sessions.is_empty());
}

#[test]
fn a_bare_account_has_no_options() {
    let account = Account::from_document(&record(bare_account_entries("sid=1"))).unwrap();
    assert_eq!(account.cookie, "sid=1");
    assert_eq!(account.remark, "first");
    assert_eq!(account.ticket.id, "7788");
    assert_eq!(account.ticket.num, 2);
    assert_eq!(account.ticket.sessions, 1);
    assert_eq!(account.ticket.grade, 3);
    assert_eq!(account.interval, None);
    assert_eq!(account.earliest_submit_time, None);
    assert_eq!(account.request_time, None);
    assert_eq!(account.retry_times, None);
    assert_eq!(account.retry_interval, None);
    assert!(account.monitor.is_none());
    assert_eq!(account.dingtalk_notify, None);
    assert_eq!(account.dingtalk_token, None);
}

#[test]
fn a_full_account_keeps_every_option() {
    let account = Account::from_document(&record(full_account_entries())).unwrap();
    assert_eq!(account.cookie, "sid=1");
    assert_eq!(account.interval, Some(500));
    assert_eq!(account.earliest_submit_time, Some(-100));
    assert_eq!(account.request_time, Some(1700000000000));
    assert_eq!(account.retry_times, Some(3));
    assert_eq!(account.retry_interval, Some(200));
    let monitor = account.monitor.unwrap();
    assert!(monitor.enable);
    assert_eq!(monitor.interval, 1500);
    assert_eq!(monitor.sessions.len(), 2);
    assert_eq!(monitor.sessions[1].grades, vec![5]);
    assert_eq!(account.dingtalk_notify, Some(false));
    assert_eq!(account.dingtalk_token, Some("token".to_string()));
}

#[test]
fn a_null_option_is_an_absent_option() {
    let mut entries = bare_account_entries("sid=1");
    for name in [
        "interval",
        "earliest_submit_time",
        "request_time",
        "retry_times",
        "retry_interval",
        "monitor",
        "dingtalk_notify",
        "dingtalk_token",
    ] {
        entries.push((name, Document::Null));
    }
    let account = Account::from_document(&record(entries)).unwrap();
    assert_eq!(account.interval, None);
    assert_eq!(account.earliest_submit_time, None);
    assert_eq!(account.request_time, None);
    assert_eq!(account.retry_times, None);
    assert_eq!(account.retry_interval, None);
    assert!(account.monitor.is_none());
    assert_eq!(account.dingtalk_notify, None);
    assert_eq!(account.dingtalk_token, None);
}

#[test]
fn the_required_fields_of_an_account_are_required() {
    assert_eq!(
        failure_of::<Account>(record(without(full_account_entries(), "cookie"))),
        SchemaDecodeFailure::MissingField(Slot::AccountCookie)
    );
    assert_eq!(
        failure_of::<Account>(record(without(full_account_entries(), "remark"))),
        SchemaDecodeFailure::MissingField(Slot::AccountRemark)
    );
    assert_eq!(
        failure_of::<Account>(record(without(full_account_entries(), "ticket"))),
        SchemaDecodeFailure::MissingField(Slot::AccountTicket)
    );
    assert_eq!(
        failure_of::<Account>(record(with(full_account_entries(), "ticket", Document::Null))),
        SchemaDecodeFailure::EntityMismatch(Entity::Ticket)
    );
    assert_eq!(
        failure_of::<Account>(record(with(
            full_account_entries(),
            "ticket",
            record(without(ticket_entries(), "id")),
        ))),
        SchemaDecodeFailure::MissingField(Slot::TicketId)
    );
}

#[test]
fn an_option_of_the_wrong_shape_is_refused() {
    let cases = vec![
        ("interval", Document::Negative(-1), Slot::AccountInterval),
        ("interval", text("500"), Slot::AccountInterval),
        ("earliest_submit_time", Document::Real, Slot::AccountEarliestSubmitTime),
        (
            "earliest_submit_time",
            Document::Unsigned(9223372036854775808),
            Slot::AccountEarliestSubmitTime,
        ),
        ("request_time", Document::Bool(true), Slot::AccountRequestTime),
        ("retry_times", Document::Unsigned(256), Slot::AccountRetryTimes),
        ("retry_times", Document::Negative(-1), Slot::AccountRetryTimes),
        ("retry_interval", Document::Real, Slot::AccountRetryInterval),
        ("dingtalk_notify", text("yes"), Slot::AccountDingtalkNotify),
        ("dingtalk_token", Document::Unsigned(1), Slot::AccountDingtalkToken),
    ];
    for (name, value, slot) in cases {
        assert_eq!(
            failure_of::<Account>(record(with(full_account_entries(), name, value))),
            SchemaDecodeFailure::FieldMismatch(slot)
        );
    }
    assert_eq!(
        failure_of::<Account>(record(with(full_account_entries(), "monitor", Document::Bool(true)))),
        SchemaDecodeFailure::EntityMismatch(Entity::Monitor)
    );
}

#[test]
fn integers_at_the_edge_of_their_kind_are_read() {
    let entries = with(
        with(
            with(
                with(
                    full_account_entries(),
                    "retry_times",
                    Document::Unsigned(255),
                ),
                "interval",
                Document::Unsigned(u64::MAX),
            ),
            "earliest_submit_time",
            Document::Negative(i64::MIN),
        ),
        "request_time",
        Document::Unsigned(9223372036854775807),
    );
    let account = Account::from_document(&record(entries)).unwrap();
    assert_eq!(account.retry_times, Some(255));
    assert_eq!(account.interval, Some(u64::MAX));
    assert_eq!(account.earliest_submit_time, Some(i64::MIN));
    assert_eq!(account.request_time, Some(i64::MAX));
}

#[test]
fn read_unsigned_keeps_to_its_bound() {
    assert_eq!(read_unsigned(&Document::Unsigned(10), Slot::TicketNum, 10), Ok(10));
    assert_eq!(
        read_unsigned(&Document::Unsigned(11), Slot::TicketNum, 10),
        Err(SchemaDecodeFailure::FieldMismatch(Slot::TicketNum))
    );
    assert_eq!(read_unsigned(&Document::Unsigned(0), Slot::TicketNum, 0), Ok(0));
}

#[test]
fn read_signed_takes_both_signs() {
    assert_eq!(read_signed(&Document::Unsigned(5), Slot::AccountRequestTime), Ok(5));
    assert_eq!(read_signed(&Document::Negative(-5), Slot::AccountRequestTime), Ok(-5));
    assert_eq!(
        read_signed(&Document::Unsigned(u64::MAX), Slot::AccountRequestTime),
        Err(SchemaDecodeFailure::FieldMismatch(Slot::AccountRequestTime))
    );
}

#[test]
fn a_config_keeps_the_order_and_number_of_its_accounts() {
    let doc = record(vec![(
        "accounts",
        Document::List(vec![
            record(bare_account_entries("second-in-the-alphabet")),
            record(bare_account_entries("first-in-the-alphabet")),
            record(bare_account_entries("second-in-the-alphabet")),
        ]),
    )]);
    let config = Config::from_document(&doc).unwrap();
    assert_eq!(config.accounts.len(), 3);
    assert_eq!(config.accounts[0].cookie, "second-in-the-alphabet");
    assert_eq!(config.accounts[1].cookie, "first-in-the-alphabet");
    assert_eq!(config.accounts[2].cookie, "second-in-the-alphabet");
}

#[test]
fn a_config_may_hold_no_accounts() {
    let config =
        Config::from_document(&record(vec![("accounts", Document::List(vec![]))])).unwrap();
    assert!(config.accounts.is_empty());
}

#[test]
fn a_config_needs_a_list_of_accounts() {
    assert_eq!(
        failure_of::<Config>(record(vec![])),
        SchemaDecodeFailure::MissingField(Slot::ConfigAccounts)
    );
    assert_eq!(
        failure_of::<Config>(record(vec![("accounts", Document::Null)])),
        SchemaDecodeFailure::FieldMismatch(Slot::ConfigAccounts)
    );
    assert_eq!(
        failure_of::<Config>(record(vec![("accounts", record(bare_account_entries("a")))])),
        SchemaDecodeFailure::FieldMismatch(Slot::ConfigAccounts)
    );
}

#[test]
fn the_first_failing_account_decides() {
    let doc = record(vec![(
        "accounts",
        Document::List(vec![
            record(bare_account_entries("a")),
            record(without(bare_account_entries("b"), "remark")),
            Document::Null,
        ]),
    )]);
    assert_eq!(
        failure_of::<Config>(doc),
        SchemaDecodeFailure::MissingField(Slot::AccountRemark)
    );
}

#[test]
fn decode_each_stops_at_the_first_failure() {
    let items = vec![sessions_doc(1, "1"), sessions_doc(2, ""), Document::Null];
    assert_eq!(
        decode_each::<Sessions>(&items).err(),
        Some(SchemaDecodeFailure::FieldFormat(FieldFormatError::Empty))
    );
    let sound = vec![sessions_doc(3, "1"), sessions_doc(2, "2,3")];
    let decoded = decode_each::<Sessions>(&sound).unwrap();
    assert_eq!(decoded.len(), 2);
    assert_eq!(decoded[0].index, 3);
    assert_eq!(decoded[1].grades, vec![2, 3]);
}

#[test]
fn slots_are_named_as_the_file_names_them() {
    let names = [
        (Slot::ConfigAccounts, "accounts", false),
        (Slot::AccountCookie, "cookie", false),
        (Slot::AccountRemark, "remark", false),
        (Slot::AccountTicket, "ticket", false),
        (Slot::AccountInterval, "interval", true),
        (Slot::AccountEarliestSubmitTime, "earliest_submit_time", true),
        (Slot::AccountRequestTime, "request_time", true),
        (Slot::AccountRetryTimes, "retry_times", true),
        (Slot::AccountRetryInterval, "retry_interval", true),
        (Slot::AccountMonitor, "monitor", true),
        (Slot::AccountDingtalkNotify, "dingtalk_notify", true),
        (Slot::AccountDingtalkToken, "dingtalk_token", true),
        (Slot::TicketId, "id", false),
        (Slot::TicketNum, "num", false),
        (Slot::TicketSessions, "sessions", false),
        (Slot::TicketGrade, "grade", false),
        (Slot::MonitorEnable, "enable", false),
        (Slot::MonitorInterval, "interval", false),
        (Slot::MonitorSessions, "sessions", false),
        (Slot::SessionsIndex, "index", false),
        (Slot::SessionsGrades, "grades", false),
    ];
    for (slot, name, optional) in names {
        assert_eq!(slot.name(), name);
        assert_eq!(slot.is_optional(), optional);
    }
}

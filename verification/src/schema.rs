//! The schema: the entities of a configuration, their mathematical views, the
//! places a value can stand in, and the ways a document can fail the schema.

use crate::grades::FieldFormatError;
use vstd::prelude::*;

verus! {

/// The purchase target of an account.
#[derive(Debug, Clone)]
pub struct Ticket {
    pub id: String,
    pub num: usize,
    pub sessions: usize,
    pub grade: usize,
}

/// One monitored session and the grades that are acceptable for it.
#[derive(Debug, Clone)]
pub struct Sessions {
    pub index: usize,
    pub grades: Vec<usize>,
}

/// The watch configuration of an account.
#[derive(Debug, Clone)]
pub struct Monitor {
    pub enable: bool,
    pub interval: u64,
    pub sessions: Vec<Sessions>,
}

/// One configured identity: its ticket, its timing and its monitor.
#[derive(Debug, Clone)]
pub struct Account {
    pub cookie: String,
    pub remark: String,
    pub ticket: Ticket,
    pub interval: Option<u64>,
    pub earliest_submit_time: Option<i64>,
    pub request_time: Option<i64>,
    pub retry_times: Option<u8>,
    pub retry_interval: Option<u64>,
    pub monitor: Option<Monitor>,
    pub dingtalk_notify: Option<bool>,
    pub dingtalk_token: Option<String>,
}

/// The root of a configuration: its accounts, in the order of the file.
#[derive(Debug)]
pub struct Config {
    pub accounts: Vec<Account>,
}

/// What a ticket holds, its texts and lists as sequences.
pub struct TicketView {
    pub id: Seq<char>,
    pub num: usize,
    pub sessions: usize,
    pub grade: usize,
}

/// What a sessions entry holds, its texts and lists as sequences.
pub struct SessionsView {
    pub index: usize,
    pub grades: Seq<usize>,
}

/// What a monitor holds, its texts and lists as sequences.
pub struct MonitorView {
    pub enable: bool,
    pub interval: u64,
    pub sessions: Seq<SessionsView>,
}

/// What an account holds, its texts and lists as sequences.
pub struct AccountView {
    pub cookie: Seq<char>,
    pub remark: Seq<char>,
    pub ticket: TicketView,
    pub interval: Option<u64>,
    pub earliest_submit_time: Option<i64>,
    pub request_time: Option<i64>,
    pub retry_times: Option<u8>,
    pub retry_interval: Option<u64>,
    pub monitor: Option<MonitorView>,
    pub dingtalk_notify: Option<bool>,
    pub dingtalk_token: Option<Seq<char>>,
}

/// What a configuration holds, its texts and lists as sequences.
pub struct ConfigView {
    pub accounts: Seq<AccountView>,
}

impl View for Ticket {
    type V = TicketView;

    open spec fn view(&self) -> TicketView {
        TicketView { id: self.id@, num: self.num, sessions: self.sessions, grade: self.grade }
    }
}

impl View for Sessions {
    type V = SessionsView;

    open spec fn view(&self) -> SessionsView {
        SessionsView { index: self.index, grades: self.grades@ }
    }
}

impl View for Monitor {
    type V = MonitorView;

    open spec fn view(&self) -> MonitorView {
        MonitorView {
            enable: self.enable,
            interval: self.interval,
            sessions: views_of(self.sessions@),
        }
    }
}

impl View for Account {
    type V = AccountView;

    open spec fn view(&self) -> AccountView {
        AccountView {
            cookie: self.cookie@,
            remark: self.remark@,
            ticket: self.ticket@,
            interval: self.interval,
            earliest_submit_time: self.earliest_submit_time,
            request_time: self.request_time,
            retry_times: self.retry_times,
            retry_interval: self.retry_interval,
            monitor: match self.monitor {
                Some(monitor) => Some(monitor@),
                None => None,
            },
            dingtalk_notify: self.dingtalk_notify,
            dingtalk_token: match self.dingtalk_token {
                Some(token) => Some(token@),
                None => None,
            },
        }
    }
}

impl View for Config {
    type V = ConfigView;

    open spec fn view(&self) -> ConfigView {
        ConfigView { accounts: views_of(self.accounts@) }
    }
}

/// The views of the items of `items`, in their order.
pub open spec fn views_of<T: View>(items: Seq<T>) -> Seq<T::V> {
    Seq::new(items.len(), |i: int| items[i]@)
}

/// The entities of the schema.
#[derive(Clone, Copy, Debug, PartialEq, Eq, Structural)]
pub enum Entity {
    Config,
    Account,
    Ticket,
    Monitor,
    Sessions,
}

/// The fields of the schema, each under the entity that owns it.
#[derive(Clone, Copy, Debug, PartialEq, Eq, Structural)]
pub enum Slot {
    ConfigAccounts,
    AccountCookie,
    AccountRemark,
    AccountTicket,
    AccountInterval,
    AccountEarliestSubmitTime,
    AccountRequestTime,
    AccountRetryTimes,
    AccountRetryInterval,
    AccountMonitor,
    AccountDingtalkNotify,
    AccountDingtalkToken,
    TicketId,
    TicketNum,
    TicketSessions,
    TicketGrade,
    MonitorEnable,
    MonitorInterval,
    MonitorSessions,
    SessionsIndex,
    SessionsGrades,
}

impl Slot {
    /// The name under which the field stands in a record.
    pub open spec fn key(self) -> Seq<char> {
        match self {
            Slot::ConfigAccounts => "accounts"@,
            Slot::AccountCookie => "cookie"@,
            Slot::AccountRemark => "remark"@,
            Slot::AccountTicket => "ticket"@,
            Slot::AccountInterval => "interval"@,
            Slot::AccountEarliestSubmitTime => "earliest_submit_time"@,
            Slot::AccountRequestTime => "request_time"@,
            Slot::AccountRetryTimes => "retry_times"@,
            Slot::AccountRetryInterval => "retry_interval"@,
            Slot::AccountMonitor => "monitor"@,
            Slot::AccountDingtalkNotify => "dingtalk_notify"@,
            Slot::AccountDingtalkToken => "dingtalk_token"@,
            Slot::TicketId => "id"@,
            Slot::TicketNum => "num"@,
            Slot::TicketSessions => "sessions"@,
            Slot::TicketGrade => "grade"@,
            Slot::MonitorEnable => "enable"@,
            Slot::MonitorInterval => "interval"@,
            Slot::MonitorSessions => "sessions"@,
            Slot::SessionsIndex => "index"@,
            Slot::SessionsGrades => "grades"@,
        }
    }

    /// The name under which the field stands in a record.
    pub fn name(self) -> (name: &'static str)
        ensures
            name@ == self.key(),
    {
        match self {
            Slot::ConfigAccounts => "accounts",
            Slot::AccountCookie => "cookie",
            Slot::AccountRemark => "remark",
            Slot::AccountTicket => "ticket",
            Slot::AccountInterval => "interval",
            Slot::AccountEarliestSubmitTime => "earliest_submit_time",
            Slot::AccountRequestTime => "request_time",
            Slot::AccountRetryTimes => "retry_times",
            Slot::AccountRetryInterval => "retry_interval",
            Slot::AccountMonitor => "monitor",
            Slot::AccountDingtalkNotify => "dingtalk_notify",
            Slot::AccountDingtalkToken => "dingtalk_token",
            Slot::TicketId => "id",
            Slot::TicketNum => "num",
            Slot::TicketSessions => "sessions",
            Slot::TicketGrade => "grade",
            Slot::MonitorEnable => "enable",
            Slot::MonitorInterval => "interval",
            Slot::MonitorSessions => "sessions",
            Slot::SessionsIndex => "index",
            Slot::SessionsGrades => "grades",
        }
    }

    /// The entity whose record holds the field.
    pub open spec fn owner(self) -> Entity {
        match self {
            Slot::ConfigAccounts => Entity::Config,
            Slot::AccountCookie
            | Slot::AccountRemark
            | Slot::AccountTicket
            | Slot::AccountInterval
            | Slot::AccountEarliestSubmitTime
            | Slot::AccountRequestTime
            | Slot::AccountRetryTimes
            | Slot::AccountRetryInterval
            | Slot::AccountMonitor
            | Slot::AccountDingtalkNotify
            | Slot::AccountDingtalkToken => Entity::Account,
            Slot::TicketId | Slot::TicketNum | Slot::TicketSessions | Slot::TicketGrade => Entity::Ticket,
            Slot::MonitorEnable | Slot::MonitorInterval | Slot::MonitorSessions => Entity::Monitor,
            Slot::SessionsIndex | Slot::SessionsGrades => Entity::Sessions,
        }
    }

    /// Whether a record may leave the field out.
    pub open spec fn optional(self) -> bool {
        match self {
            Slot::AccountInterval
            | Slot::AccountEarliestSubmitTime
            | Slot::AccountRequestTime
            | Slot::AccountRetryTimes
            | Slot::AccountRetryInterval
            | Slot::AccountMonitor
            | Slot::AccountDingtalkNotify
            | Slot::AccountDingtalkToken => true,
            _ => false,
        }
    }

    /// Whether a record may leave the field out.
    pub fn is_optional(self) -> (r: bool)
        ensures
            r == self.optional(),
    {
        match self {
            Slot::AccountInterval
            | Slot::AccountEarliestSubmitTime
            | Slot::AccountRequestTime
            | Slot::AccountRetryTimes
            | Slot::AccountRetryInterval
            | Slot::AccountMonitor
            | Slot::AccountDingtalkNotify
            | Slot::AccountDingtalkToken => true,
            _ => false,
        }
    }
}

/// How a document fails the schema.
#[derive(Clone, Copy, Debug, PartialEq, Eq, Structural)]
pub enum SchemaDecodeFailure {
    /// The value that stands for an entity is no record.
    EntityMismatch(Entity),
    /// A record lacks a field that it must have.
    MissingField(Slot),
    /// The value of a field has not the shape that the schema declares.
    FieldMismatch(Slot),
    /// The text of a grade list is no list of integers.
    FieldFormat(FieldFormatError),
}

} // verus!

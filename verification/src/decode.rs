//! The schema decoder: from a canonical document to the typed entities.
//!
//! Each entity is read from a record. Its fields are looked up by name and
//! taken in the order of their declaration; the first one that fails decides
//! the failure. A field that the schema does not name is passed over.

use crate::document::{find, lookup, Document, Field};
use crate::grades::{deserialize_array_usize, grades_of};
use crate::schema::{
    views_of, Account, AccountView, Config, ConfigView, Entity, Monitor, MonitorView,
    SchemaDecodeFailure, Sessions, SessionsView, Slot, Ticket, TicketView,
};
use vstd::prelude::*;

verus! {

/// The value under `slot`, which the record must have.
pub open spec fn required(fields: Seq<Field>, slot: Slot) -> Result<Document, SchemaDecodeFailure> {
    match lookup(fields, slot.key()) {
        Some(value) => Ok(value),
        None => Err(SchemaDecodeFailure::MissingField(slot)),
    }
}

/// The value under `slot`, where the record has one and it is not null.
pub open spec fn present(fields: Seq<Field>, slot: Slot) -> Option<Document> {
    match lookup(fields, slot.key()) {
        Some(Document::Null) => None,
        other => other,
    }
}

/// The text that `value` is; what is no text does not fit `slot`.
pub open spec fn text_of(value: Document, slot: Slot) -> Result<Seq<char>, SchemaDecodeFailure> {
    match value {
        Document::Text(text) => Ok(text@),
        _ => Err(SchemaDecodeFailure::FieldMismatch(slot)),
    }
}

/// The truth value that `value` is; what is none does not fit `slot`.
pub open spec fn flag_of(value: Document, slot: Slot) -> Result<bool, SchemaDecodeFailure> {
    match value {
        Document::Bool(flag) => Ok(flag),
        _ => Err(SchemaDecodeFailure::FieldMismatch(slot)),
    }
}

/// The integer from zero up to `max` that `value` is; what is none does not
/// fit `slot`.
pub open spec fn unsigned_of(value: Document, slot: Slot, max: u64) -> Result<
    u64,
    SchemaDecodeFailure,
> {
    match value {
        Document::Unsigned(n) if n <= max => Ok(n),
        _ => Err(SchemaDecodeFailure::FieldMismatch(slot)),
    }
}

/// The integer of 64 bits with a sign that `value` is; what is none does not
/// fit `slot`.
pub open spec fn signed_of(value: Document, slot: Slot) -> Result<i64, SchemaDecodeFailure> {
    match value {
        Document::Unsigned(n) if n <= i64::MAX as u64 => Ok(n as i64),
        Document::Negative(n) => Ok(n),
        _ => Err(SchemaDecodeFailure::FieldMismatch(slot)),
    }
}

/// The text under `slot`, which the record must have.
pub open spec fn text_at(fields: Seq<Field>, slot: Slot) -> Result<Seq<char>, SchemaDecodeFailure> {
    match required(fields, slot) {
        Ok(value) => text_of(value, slot),
        Err(failure) => Err(failure),
    }
}

/// The truth value under `slot`, which the record must have.
pub open spec fn flag_at(fields: Seq<Field>, slot: Slot) -> Result<bool, SchemaDecodeFailure> {
    match required(fields, slot) {
        Ok(value) => flag_of(value, slot),
        Err(failure) => Err(failure),
    }
}

/// The integer up to `max` under `slot`, which the record must have.
pub open spec fn unsigned_at(fields: Seq<Field>, slot: Slot, max: u64) -> Result<
    u64,
    SchemaDecodeFailure,
> {
    match required(fields, slot) {
        Ok(value) => unsigned_of(value, slot, max),
        Err(failure) => Err(failure),
    }
}

/// The text under `slot`, where the record has one.
pub open spec fn optional_text_at(fields: Seq<Field>, slot: Slot) -> Result<
    Option<Seq<char>>,
    SchemaDecodeFailure,
> {
    match present(fields, slot) {
        None => Ok(None),
        Some(value) => match text_of(value, slot) {
            Ok(text) => Ok(Some(text)),
            Err(failure) => Err(failure),
        },
    }
}

/// The truth value under `slot`, where the record has one.
pub open spec fn optional_flag_at(fields: Seq<Field>, slot: Slot) -> Result<
    Option<bool>,
    SchemaDecodeFailure,
> {
    match present(fields, slot) {
        None => Ok(None),
        Some(value) => match flag_of(value, slot) {
            Ok(flag) => Ok(Some(flag)),
            Err(failure) => Err(failure),
        },
    }
}

/// The integer up to `max` under `slot`, where the record has one.
pub open spec fn optional_unsigned_at(fields: Seq<Field>, slot: Slot, max: u64) -> Result<
    Option<u64>,
    SchemaDecodeFailure,
> {
    match present(fields, slot) {
        None => Ok(None),
        Some(value) => match unsigned_of(value, slot, max) {
            Ok(n) => Ok(Some(n)),
            Err(failure) => Err(failure),
        },
    }
}

/// The signed integer under `slot`, where the record has one.
pub open spec fn optional_signed_at(fields: Seq<Field>, slot: Slot) -> Result<
    Option<i64>,
    SchemaDecodeFailure,
> {
    match present(fields, slot) {
        None => Ok(None),
        Some(value) => match signed_of(value, slot) {
            Ok(n) => Ok(Some(n)),
            Err(failure) => Err(failure),
        },
    }
}

/// A type of the schema that can be read from a canonical document.
pub trait FromDocument: Sized + View {
    /// What `doc` holds as a value of the type, or why it holds none.
    spec fn decoded(doc: Document) -> Result<Self::V, SchemaDecodeFailure>;

    /// Reads `doc` as a value of the type.
    fn from_document(doc: &Document) -> (r: Result<Self, SchemaDecodeFailure>)
        ensures
            match r {
                Ok(value) => Self::decoded(*doc) == Ok::<Self::V, SchemaDecodeFailure>(value@),
                Err(failure) => Self::decoded(*doc) == Err::<Self::V, SchemaDecodeFailure>(failure),
            },
    ;
}

/// The items of a list, each decoded as a `T`, in the order of the list; or
/// the failure of the first item that is none.
pub open spec fn each_of<T: FromDocument>(items: Seq<Document>) -> Result<
    Seq<T::V>,
    SchemaDecodeFailure,
>
    decreases items.len(),
{
    if items.len() == 0 {
        Ok(Seq::empty())
    } else {
        match each_of::<T>(items.drop_last()) {
            Err(failure) => Err(failure),
            Ok(values) => match T::decoded(items.last()) {
                Err(failure) => Err(failure),
                Ok(value) => Ok(values.push(value)),
            },
        }
    }
}

/// The list under `slot`, which the record must have, each item a `T`.
pub open spec fn list_at<T: FromDocument>(fields: Seq<Field>, slot: Slot) -> Result<
    Seq<T::V>,
    SchemaDecodeFailure,
> {
    match required(fields, slot) {
        Ok(Document::List(items)) => each_of::<T>(items@),
        Ok(_) => Err(SchemaDecodeFailure::FieldMismatch(slot)),
        Err(failure) => Err(failure),
    }
}

/// Once a leading part of a list has failed, the whole list fails the same
/// way.
pub proof fn lemma_failure_of_a_part<T: FromDocument>(items: Seq<Document>, n: int)
    requires
        0 <= n <= items.len(),
        each_of::<T>(items.take(n)) is Err,
    ensures
        each_of::<T>(items) == each_of::<T>(items.take(n)),
    decreases items.len() - n,
{
    if n < items.len() {
        assert(items.take(n + 1).drop_last() =~= items.take(n));
        lemma_failure_of_a_part::<T>(items, n + 1);
    } else {
        assert(items.take(n) =~= items);
    }
}

/// Finds the value under `slot`, which the record must have.
pub fn require<'a>(fields: &'a Vec<Field>, slot: Slot) -> (r: Result<
    &'a Document,
    SchemaDecodeFailure,
>)
    ensures
        match r {
            Ok(value) => required(fields@, slot) == Ok::<Document, SchemaDecodeFailure>(*value),
            Err(failure) => required(fields@, slot) == Err::<Document, SchemaDecodeFailure>(
                failure,
            ),
        },
{
    match find(fields, slot.name()) {
        Some(value) => Ok(value),
        None => Err(SchemaDecodeFailure::MissingField(slot)),
    }
}

/// Finds the value under `slot`, where the record has one that is not null.
pub fn presence<'a>(fields: &'a Vec<Field>, slot: Slot) -> (r: Option<&'a Document>)
    ensures
        match r {
            Some(value) => present(fields@, slot) == Some(*value),
            None => present(fields@, slot) is None,
        },
{
    match find(fields, slot.name()) {
        Some(Document::Null) => None,
        other => other,
    }
}

/// Reads `value` as a text.
pub fn read_text(value: &Document, slot: Slot) -> (r: Result<String, SchemaDecodeFailure>)
    ensures
        match r {
            Ok(text) => text_of(*value, slot) == Ok::<Seq<char>, SchemaDecodeFailure>(text@),
            Err(failure) => text_of(*value, slot) == Err::<Seq<char>, SchemaDecodeFailure>(
                failure,
            ),
        },
{
    match value {
        Document::Text(text) => Ok(text.clone()),
        _ => Err(SchemaDecodeFailure::FieldMismatch(slot)),
    }
}

/// Reads `value` as a truth value.
pub fn read_flag(value: &Document, slot: Slot) -> (r: Result<bool, SchemaDecodeFailure>)
    ensures
        r == flag_of(*value, slot),
{
    match value {
        Document::Bool(flag) => Ok(*flag),
        _ => Err(SchemaDecodeFailure::FieldMismatch(slot)),
    }
}

/// Reads `value` as an integer from zero up to `max`.
pub fn read_unsigned(value: &Document, slot: Slot, max: u64) -> (r: Result<
    u64,
    SchemaDecodeFailure,
>)
    ensures
        r == unsigned_of(*value, slot, max),
{
    match value {
        Document::Unsigned(n) => if *n <= max {
            Ok(*n)
        } else {
            Err(SchemaDecodeFailure::FieldMismatch(slot))
        },
        _ => Err(SchemaDecodeFailure::FieldMismatch(slot)),
    }
}

/// Reads `value` as an integer of 64 bits with a sign.
pub fn read_signed(value: &Document, slot: Slot) -> (r: Result<i64, SchemaDecodeFailure>)
    ensures
        r == signed_of(*value, slot),
{
    match value {
        Document::Unsigned(n) => if *n <= 0x7fff_ffff_ffff_ffff {
            Ok(*n as i64)
        } else {
            Err(SchemaDecodeFailure::FieldMismatch(slot))
        },
        Document::Negative(n) => Ok(*n),
        _ => Err(SchemaDecodeFailure::FieldMismatch(slot)),
    }
}

/// Reads the text under `slot`, which the record must have.
pub fn text_field(fields: &Vec<Field>, slot: Slot) -> (r: Result<String, SchemaDecodeFailure>)
    ensures
        match r {
            Ok(text) => text_at(fields@, slot) == Ok::<Seq<char>, SchemaDecodeFailure>(text@),
            Err(failure) => text_at(fields@, slot) == Err::<Seq<char>, SchemaDecodeFailure>(
                failure,
            ),
        },
{
    match require(fields, slot) {
        Ok(value) => read_text(value, slot),
        Err(failure) => Err(failure),
    }
}

/// Reads the truth value under `slot`, which the record must have.
pub fn flag_field(fields: &Vec<Field>, slot: Slot) -> (r: Result<bool, SchemaDecodeFailure>)
    ensures
        r == flag_at(fields@, slot),
{
    match require(fields, slot) {
        Ok(value) => read_flag(value, slot),
        Err(failure) => Err(failure),
    }
}

/// Reads the integer up to `max` under `slot`, which the record must have.
pub fn unsigned_field(fields: &Vec<Field>, slot: Slot, max: u64) -> (r: Result<
    u64,
    SchemaDecodeFailure,
>)
    ensures
        r == unsigned_at(fields@, slot, max),
{
    match require(fields, slot) {
        Ok(value) => read_unsigned(value, slot, max),
        Err(failure) => Err(failure),
    }
}

/// Reads the text under `slot`, where the record has one.
pub fn optional_text_field(fields: &Vec<Field>, slot: Slot) -> (r: Result<
    Option<String>,
    SchemaDecodeFailure,
>)
    ensures
        match r {
            Ok(Some(text)) => optional_text_at(fields@, slot) == Ok::<
                Option<Seq<char>>,
                SchemaDecodeFailure,
            >(Some(text@)),
            Ok(None) => optional_text_at(fields@, slot) == Ok::<
                Option<Seq<char>>,
                SchemaDecodeFailure,
            >(None),
            Err(failure) => optional_text_at(fields@, slot) == Err::<
                Option<Seq<char>>,
                SchemaDecodeFailure,
            >(failure),
        },
{
    match presence(fields, slot) {
        None => Ok(None),
        Some(value) => match read_text(value, slot) {
            Ok(text) => Ok(Some(text)),
            Err(failure) => Err(failure),
        },
    }
}

/// Reads the truth value under `slot`, where the record has one.
pub fn optional_flag_field(fields: &Vec<Field>, slot: Slot) -> (r: Result<
    Option<bool>,
    SchemaDecodeFailure,
>)
    ensures
        r == optional_flag_at(fields@, slot),
{
    match presence(fields, slot) {
        None => Ok(None),
        Some(value) => match read_flag(value, slot) {
            Ok(flag) => Ok(Some(flag)),
            Err(failure) => Err(failure),
        },
    }
}

/// Reads the integer up to `max` under `slot`, where the record has one.
pub fn optional_unsigned_field(fields: &Vec<Field>, slot: Slot, max: u64) -> (r: Result<
    Option<u64>,
    SchemaDecodeFailure,
>)
    ensures
        r == optional_unsigned_at(fields@, slot, max),
{
    match presence(fields, slot) {
        None => Ok(None),
        Some(value) => match read_unsigned(value, slot, max) {
            Ok(n) => Ok(Some(n)),
            Err(failure) => Err(failure),
        },
    }
}

/// Reads the signed integer under `slot`, where the record has one.
pub fn optional_signed_field(fields: &Vec<Field>, slot: Slot) -> (r: Result<
    Option<i64>,
    SchemaDecodeFailure,
>)
    ensures
        r == optional_signed_at(fields@, slot),
{
    match presence(fields, slot) {
        None => Ok(None),
        Some(value) => match read_signed(value, slot) {
            Ok(n) => Ok(Some(n)),
            Err(failure) => Err(failure),
        },
    }
}

/// Decodes each item of `items` as a `T`, and stops at the first that fails.
pub fn decode_each<T: FromDocument>(items: &Vec<Document>) -> (r: Result<
    Vec<T>,
    SchemaDecodeFailure,
>)
    ensures
        match r {
            Ok(values) => each_of::<T>(items@) == Ok::<Seq<T::V>, SchemaDecodeFailure>(
                views_of(values@),
            ),
            Err(failure) => each_of::<T>(items@) == Err::<Seq<T::V>, SchemaDecodeFailure>(
                failure,
            ),
        },
{
    let mut values: Vec<T> = Vec::new();
    let mut i: usize = 0;
    assert(items@.take(0) =~= Seq::<Document>::empty());
    assert(views_of(values@) =~= Seq::<T::V>::empty());
    while i < items.len()
        invariant
            i <= items.len(),
            each_of::<T>(items@.take(i as int)) == Ok::<Seq<T::V>, SchemaDecodeFailure>(
                views_of(values@),
            ),
        decreases items.len() - i,
    {
        let ghost before = views_of(values@);
        assert(items@.take(i + 1).drop_last() =~= items@.take(i as int));
        assert(items@.take(i + 1).last() == items@[i as int]);
        match T::from_document(&items[i]) {
            Ok(value) => {
                values.push(value);
                assert(views_of(values@) =~= before.push(value@));
            },
            Err(failure) => {
                proof {
                    lemma_failure_of_a_part::<T>(items@, i + 1);
                }
                return Err(failure);
            },
        }
        i += 1;
    }
    assert(items@.take(i as int) =~= items@);
    Ok(values)
}

/// Reads the list under `slot`, which the record must have, each item a `T`.
pub fn list_field<T: FromDocument>(fields: &Vec<Field>, slot: Slot) -> (r: Result<
    Vec<T>,
    SchemaDecodeFailure,
>)
    ensures
        match r {
            Ok(values) => list_at::<T>(fields@, slot) == Ok::<Seq<T::V>, SchemaDecodeFailure>(
                views_of(values@),
            ),
            Err(failure) => list_at::<T>(fields@, slot) == Err::<Seq<T::V>, SchemaDecodeFailure>(
                failure,
            ),
        },
{
    match require(fields, slot) {
        Ok(Document::List(items)) => decode_each::<T>(items),
        Ok(_) => Err(SchemaDecodeFailure::FieldMismatch(slot)),
        Err(failure) => Err(failure),
    }
}

impl FromDocument for Ticket {
    open spec fn decoded(doc: Document) -> Result<TicketView, SchemaDecodeFailure> {
        match doc {
            Document::Record(fields) => {
                let id = text_at(fields@, Slot::TicketId);
                let num = unsigned_at(fields@, Slot::TicketNum, usize::MAX as u64);
                let sessions = unsigned_at(fields@, Slot::TicketSessions, usize::MAX as u64);
                let grade = unsigned_at(fields@, Slot::TicketGrade, usize::MAX as u64);
                if id is Err {
                    Err(id->Err_0)
                } else if num is Err {
                    Err(num->Err_0)
                } else if sessions is Err {
                    Err(sessions->Err_0)
                } else if grade is Err {
                    Err(grade->Err_0)
                } else {
                    Ok(
                        TicketView {
                            id: id->Ok_0,
                            num: num->Ok_0 as usize,
                            sessions: sessions->Ok_0 as usize,
                            grade: grade->Ok_0 as usize,
                        },
                    )
                }
            },
            _ => Err(SchemaDecodeFailure::EntityMismatch(Entity::Ticket)),
        }
    }

    fn from_document(doc: &Document) -> (r: Result<Ticket, SchemaDecodeFailure>) {
        match doc {
            Document::Record(fields) => {
                let id = text_field(fields, Slot::TicketId)?;
                let num = unsigned_field(fields, Slot::TicketNum, usize::MAX as u64)?;
                let sessions = unsigned_field(fields, Slot::TicketSessions, usize::MAX as u64)?;
                let grade = unsigned_field(fields, Slot::TicketGrade, usize::MAX as u64)?;
                Ok(
                    Ticket {
                        id,
                        num: num as usize,
                        sessions: sessions as usize,
                        grade: grade as usize,
                    },
                )
            },
            _ => Err(SchemaDecodeFailure::EntityMismatch(Entity::Ticket)),
        }
    }
}

/// The grade list under `slot`: the text that the record must have there,
/// read by the field parser.
pub open spec fn grades_at(fields: Seq<Field>, slot: Slot) -> Result<
    Seq<usize>,
    SchemaDecodeFailure,
> {
    match text_at(fields, slot) {
        Err(failure) => Err(failure),
        Ok(text) => match grades_of(text) {
            Ok(grades) => Ok(grades),
            Err(fault) => Err(SchemaDecodeFailure::FieldFormat(fault)),
        },
    }
}

/// Reads the grade list under `slot`, which the record must have.
pub fn grades_field(fields: &Vec<Field>, slot: Slot) -> (r: Result<
    Vec<usize>,
    SchemaDecodeFailure,
>)
    ensures
        match r {
            Ok(grades) => grades_at(fields@, slot) == Ok::<Seq<usize>, SchemaDecodeFailure>(
                grades@,
            ),
            Err(failure) => grades_at(fields@, slot) == Err::<Seq<usize>, SchemaDecodeFailure>(
                failure,
            ),
        },
{
    let text = text_field(fields, slot)?;
    match deserialize_array_usize(text.as_str()) {
        Ok(grades) => Ok(grades),
        Err(fault) => Err(SchemaDecodeFailure::FieldFormat(fault)),
    }
}

impl FromDocument for Sessions {
    open spec fn decoded(doc: Document) -> Result<SessionsView, SchemaDecodeFailure> {
        match doc {
            Document::Record(fields) => {
                let index = unsigned_at(fields@, Slot::SessionsIndex, usize::MAX as u64);
                let grades = grades_at(fields@, Slot::SessionsGrades);
                if index is Err {
                    Err(index->Err_0)
                } else if grades is Err {
                    Err(grades->Err_0)
                } else {
                    Ok(SessionsView { index: index->Ok_0 as usize, grades: grades->Ok_0 })
                }
            },
            _ => Err(SchemaDecodeFailure::EntityMismatch(Entity::Sessions)),
        }
    }

    fn from_document(doc: &Document) -> (r: Result<Sessions, SchemaDecodeFailure>) {
        match doc {
            Document::Record(fields) => {
                let index = unsigned_field(fields, Slot::SessionsIndex, usize::MAX as u64)?;
                let grades = grades_field(fields, Slot::SessionsGrades)?;
                Ok(Sessions { index: index as usize, grades })
            },
            _ => Err(SchemaDecodeFailure::EntityMismatch(Entity::Sessions)),
        }
    }
}

impl FromDocument for Monitor {
    open spec fn decoded(doc: Document) -> Result<MonitorView, SchemaDecodeFailure> {
        match doc {
            Document::Record(fields) => {
                let enable = flag_at(fields@, Slot::MonitorEnable);
                let interval = unsigned_at(fields@, Slot::MonitorInterval, u64::MAX);
                let sessions = list_at::<Sessions>(fields@, Slot::MonitorSessions);
                if enable is Err {
                    Err(enable->Err_0)
                } else if interval is Err {
                    Err(interval->Err_0)
                } else if sessions is Err {
                    Err(sessions->Err_0)
                } else {
                    Ok(
                        MonitorView {
                            enable: enable->Ok_0,
                            interval: interval->Ok_0,
                            sessions: sessions->Ok_0,
                        },
                    )
                }
            },
            _ => Err(SchemaDecodeFailure::EntityMismatch(Entity::Monitor)),
        }
    }

    fn from_document(doc: &Document) -> (r: Result<Monitor, SchemaDecodeFailure>) {
        match doc {
            Document::Record(fields) => {
                let enable = flag_field(fields, Slot::MonitorEnable)?;
                let interval = unsigned_field(fields, Slot::MonitorInterval, u64::MAX)?;
                let sessions = list_field::<Sessions>(fields, Slot::MonitorSessions)?;
                Ok(Monitor { enable, interval, sessions })
            },
            _ => Err(SchemaDecodeFailure::EntityMismatch(Entity::Monitor)),
        }
    }
}

/// The entity under `slot`, which the record must have.
pub open spec fn entity_at<T: FromDocument>(fields: Seq<Field>, slot: Slot) -> Result<
    T::V,
    SchemaDecodeFailure,
> {
    match required(fields, slot) {
        Ok(value) => T::decoded(value),
        Err(failure) => Err(failure),
    }
}

/// The entity under `slot`, where the record has one.
pub open spec fn optional_entity_at<T: FromDocument>(fields: Seq<Field>, slot: Slot) -> Result<
    Option<T::V>,
    SchemaDecodeFailure,
> {
    match present(fields, slot) {
        None => Ok(None),
        Some(value) => match T::decoded(value) {
            Ok(entity) => Ok(Some(entity)),
            Err(failure) => Err(failure),
        },
    }
}

/// Reads the entity under `slot`, which the record must have.
pub fn entity_field<T: FromDocument>(fields: &Vec<Field>, slot: Slot) -> (r: Result<
    T,
    SchemaDecodeFailure,
>)
    ensures
        match r {
            Ok(entity) => entity_at::<T>(fields@, slot) == Ok::<T::V, SchemaDecodeFailure>(
                entity@,
            ),
            Err(failure) => entity_at::<T>(fields@, slot) == Err::<T::V, SchemaDecodeFailure>(
                failure,
            ),
        },
{
    match require(fields, slot) {
        Ok(value) => T::from_document(value),
        Err(failure) => Err(failure),
    }
}

/// Reads the entity under `slot`, where the record has one.
pub fn optional_entity_field<T: FromDocument>(fields: &Vec<Field>, slot: Slot) -> (r: Result<
    Option<T>,
    SchemaDecodeFailure,
>)
    ensures
        match r {
            Ok(Some(entity)) => optional_entity_at::<T>(fields@, slot) == Ok::<
                Option<T::V>,
                SchemaDecodeFailure,
            >(Some(entity@)),
            Ok(None) => optional_entity_at::<T>(fields@, slot) == Ok::<
                Option<T::V>,
                SchemaDecodeFailure,
            >(None),
            Err(failure) => optional_entity_at::<T>(fields@, slot) == Err::<
                Option<T::V>,
                SchemaDecodeFailure,
            >(failure),
        },
{
    match presence(fields, slot) {
        None => Ok(None),
        Some(value) => match T::from_document(value) {
            Ok(entity) => Ok(Some(entity)),
            Err(failure) => Err(failure),
        },
    }
}

impl FromDocument for Account {
    open spec fn decoded(doc: Document) -> Result<AccountView, SchemaDecodeFailure> {
        match doc {
            Document::Record(fields) => {
                let cookie = text_at(fields@, Slot::AccountCookie);
                let remark = text_at(fields@, Slot::AccountRemark);
                let ticket = entity_at::<Ticket>(fields@, Slot::AccountTicket);
                let interval = optional_unsigned_at(fields@, Slot::AccountInterval, u64::MAX);
                let earliest = optional_signed_at(fields@, Slot::AccountEarliestSubmitTime);
                let request = optional_signed_at(fields@, Slot::AccountRequestTime);
                let retries = optional_unsigned_at(fields@, Slot::AccountRetryTimes, u8::MAX as u64);
                let retry_interval = optional_unsigned_at(
                    fields@,
                    Slot::AccountRetryInterval,
                    u64::MAX,
                );
                let monitor = optional_entity_at::<Monitor>(fields@, Slot::AccountMonitor);
                let notify = optional_flag_at(fields@, Slot::AccountDingtalkNotify);
                let token = optional_text_at(fields@, Slot::AccountDingtalkToken);
                if cookie is Err {
                    Err(cookie->Err_0)
                } else if remark is Err {
                    Err(remark->Err_0)
                } else if ticket is Err {
                    Err(ticket->Err_0)
                } else if interval is Err {
                    Err(interval->Err_0)
                } else if earliest is Err {
                    Err(earliest->Err_0)
                } else if request is Err {
                    Err(request->Err_0)
                } else if retries is Err {
                    Err(retries->Err_0)
                } else if retry_interval is Err {
                    Err(retry_interval->Err_0)
                } else if monitor is Err {
                    Err(monitor->Err_0)
                } else if notify is Err {
                    Err(notify->Err_0)
                } else if token is Err {
                    Err(token->Err_0)
                } else {
                    Ok(
                        AccountView {
                            cookie: cookie->Ok_0,
                            remark: remark->Ok_0,
                            ticket: ticket->Ok_0,
                            interval: interval->Ok_0,
                            earliest_submit_time: earliest->Ok_0,
                            request_time: request->Ok_0,
                            retry_times: match retries->Ok_0 {
                                Some(n) => Some(n as u8),
                                None => None,
                            },
                            retry_interval: retry_interval->Ok_0,
                            monitor: monitor->Ok_0,
                            dingtalk_notify: notify->Ok_0,
                            dingtalk_token: token->Ok_0,
                        },
                    )
                }
            },
            _ => Err(SchemaDecodeFailure::EntityMismatch(Entity::Account)),
        }
    }

    fn from_document(doc: &Document) -> (r: Result<Account, SchemaDecodeFailure>) {
        match doc {
            Document::Record(fields) => {
                let cookie = text_field(fields, Slot::AccountCookie)?;
                let remark = text_field(fields, Slot::AccountRemark)?;
                let ticket = entity_field::<Ticket>(fields, Slot::AccountTicket)?;
                let interval = optional_unsigned_field(fields, Slot::AccountInterval, u64::MAX)?;
                let earliest_submit_time = optional_signed_field(
                    fields,
                    Slot::AccountEarliestSubmitTime,
                )?;
                let request_time = optional_signed_field(fields, Slot::AccountRequestTime)?;
                let retry_times = match optional_unsigned_field(
                    fields,
                    Slot::AccountRetryTimes,
                    u8::MAX as u64,
                )? {
                    Some(n) => Some(n as u8),
                    None => None,
                };
                let retry_interval = optional_unsigned_field(
                    fields,
                    Slot::AccountRetryInterval,
                    u64::MAX,
                )?;
                let monitor = optional_entity_field::<Monitor>(fields, Slot::AccountMonitor)?;
                let dingtalk_notify = optional_flag_field(fields, Slot::AccountDingtalkNotify)?;
                let dingtalk_token = optional_text_field(fields, Slot::AccountDingtalkToken)?;
                Ok(
                    Account {
                        cookie,
                        remark,
                        ticket,
                        interval,
                        earliest_submit_time,
                        request_time,
                        retry_times,
                        retry_interval,
                        monitor,
                        dingtalk_notify,
                        dingtalk_token,
                    },
                )
            },
            _ => Err(SchemaDecodeFailure::EntityMismatch(Entity::Account)),
        }
    }
}

impl FromDocument for Config {
    open spec fn decoded(doc: Document) -> Result<ConfigView, SchemaDecodeFailure> {
        match doc {
            Document::Record(fields) => match list_at::<Account>(fields@, Slot::ConfigAccounts) {
                Ok(accounts) => Ok(ConfigView { accounts }),
                Err(failure) => Err(failure),
            },
            _ => Err(SchemaDecodeFailure::EntityMismatch(Entity::Config)),
        }
    }

    fn from_document(doc: &Document) -> (r: Result<Config, SchemaDecodeFailure>) {
        match doc {
            Document::Record(fields) => {
                let accounts = list_field::<Account>(fields, Slot::ConfigAccounts)?;
                Ok(Config { accounts })
            },
            _ => Err(SchemaDecodeFailure::EntityMismatch(Entity::Config)),
        }
    }
}

/// A list is decoded item by item: it gives a value exactly when every item
/// does, the values are as many as the items, and each stands where its item
/// stood.
pub proof fn law_list_keeps_order<T: FromDocument>(items: Seq<Document>)
    ensures
        each_of::<T>(items) is Ok <==> forall|i: int|
            0 <= i < items.len() ==> T::decoded(#[trigger] items[i]) is Ok,
        each_of::<T>(items) matches Ok(values) ==> values.len() == items.len() && forall|i: int|
            0 <= i < items.len() ==> T::decoded(#[trigger] items[i]) == Ok::<
                T::V,
                SchemaDecodeFailure,
            >(values[i]),
        each_of::<T>(items) matches Err(failure) ==> exists|i: int|
            0 <= i < items.len() && T::decoded(#[trigger] items[i]) == Err::<
                T::V,
                SchemaDecodeFailure,
            >(failure) && forall|j: int| 0 <= j < i ==> T::decoded(#[trigger] items[j]) is Ok,
    decreases items.len(),
{
    if items.len() > 0 {
        let front = items.drop_last();
        law_list_keeps_order::<T>(front);
        assert forall|i: int| 0 <= i < front.len() implies front[i] == items[i] by {}
        match each_of::<T>(front) {
            Ok(values) => {
                match T::decoded(items.last()) {
                    Ok(value) => {
                        assert forall|i: int| 0 <= i < items.len() implies T::decoded(
                            #[trigger] items[i],
                        ) == Ok::<T::V, SchemaDecodeFailure>(values.push(value)[i]) by {
                            if i < front.len() {
                                assert(front[i] == items[i]);
                            }
                        }
                    },
                    Err(failure) => {
                        let i = items.len() - 1;
                        assert(T::decoded(items[i]) == Err::<T::V, SchemaDecodeFailure>(failure));
                        assert forall|j: int| 0 <= j < i implies T::decoded(
                            #[trigger] items[j],
                        ) is Ok by {
                            assert(front[j] == items[j]);
                        }
                    },
                }
            },
            Err(failure) => {
                let i = choose|i: int|
                    0 <= i < front.len() && T::decoded(#[trigger] front[i]) == Err::<
                        T::V,
                        SchemaDecodeFailure,
                    >(failure) && forall|j: int|
                        0 <= j < i ==> T::decoded(#[trigger] front[j]) is Ok;
                assert(front[i] == items[i]);
                assert forall|j: int| 0 <= j < i implies T::decoded(#[trigger] items[j]) is Ok by {
                    assert(front[j] == items[j]);
                }
            },
        }
    }
}

/// The accounts of a configuration are those of its document: as many, and
/// each where its record stood. Where one fails, the configuration fails with
/// the failure of the first that does.
pub proof fn law_accounts_keep_their_order(fields: Vec<Field>, items: Vec<Document>)
    requires
        lookup(fields@, Slot::ConfigAccounts.key()) == Some(Document::List(items)),
    ensures
        match Config::decoded(Document::Record(fields)) {
            Ok(config) => config.accounts.len() == items@.len() && forall|i: int|
                0 <= i < items@.len() ==> Account::decoded(#[trigger] items@[i]) == Ok::<
                    AccountView,
                    SchemaDecodeFailure,
                >(config.accounts[i]),
            Err(failure) => exists|i: int|
                0 <= i < items@.len() && Account::decoded(#[trigger] items@[i]) == Err::<
                    AccountView,
                    SchemaDecodeFailure,
                >(failure) && forall|j: int|
                    0 <= j < i ==> Account::decoded(#[trigger] items@[j]) is Ok,
        },
{
    law_list_keeps_order::<Account>(items@);
}

/// An account whose record names none of the optional fields, and whose
/// required fields are sound, is decoded, and none of its options is set.
pub proof fn law_bare_account_has_no_options(fields: Vec<Field>)
    requires
        forall|slot: Slot| #[trigger] slot.optional() ==> lookup(fields@, slot.key()) is None,
        text_at(fields@, Slot::AccountCookie) is Ok,
        text_at(fields@, Slot::AccountRemark) is Ok,
        entity_at::<Ticket>(fields@, Slot::AccountTicket) is Ok,
    ensures
        Account::decoded(Document::Record(fields)) matches Ok(account) && account.interval is None
            && account.earliest_submit_time is None && account.request_time is None
            && account.retry_times is None && account.retry_interval is None
            && account.monitor is None && account.dingtalk_notify is None
            && account.dingtalk_token is None,
{
    assert(Slot::AccountInterval.optional());
    assert(Slot::AccountEarliestSubmitTime.optional());
    assert(Slot::AccountRequestTime.optional());
    assert(Slot::AccountRetryTimes.optional());
    assert(Slot::AccountRetryInterval.optional());
    assert(Slot::AccountMonitor.optional());
    assert(Slot::AccountDingtalkNotify.optional());
    assert(Slot::AccountDingtalkToken.optional());
}

/// An account whose record gives every optional field a value of its kind,
/// and whose required fields are sound, is decoded, and each option holds
/// the very value that the record gave.
pub proof fn law_given_options_are_kept(
    fields: Vec<Field>,
    interval: u64,
    earliest_submit_time: i64,
    request_time: i64,
    retry_times: u8,
    retry_interval: u64,
    monitor: Document,
    dingtalk_notify: bool,
    dingtalk_token: String,
)
    requires
        text_at(fields@, Slot::AccountCookie) is Ok,
        text_at(fields@, Slot::AccountRemark) is Ok,
        entity_at::<Ticket>(fields@, Slot::AccountTicket) is Ok,
        lookup(fields@, Slot::AccountInterval.key()) == Some(Document::Unsigned(interval)),
        lookup(fields@, Slot::AccountEarliestSubmitTime.key()) == Some(
            Document::integer(earliest_submit_time as int),
        ),
        lookup(fields@, Slot::AccountRequestTime.key()) == Some(
            Document::integer(request_time as int),
        ),
        lookup(fields@, Slot::AccountRetryTimes.key()) == Some(
            Document::Unsigned(retry_times as u64),
        ),
        lookup(fields@, Slot::AccountRetryInterval.key()) == Some(
            Document::Unsigned(retry_interval),
        ),
        lookup(fields@, Slot::AccountMonitor.key()) == Some(monitor),
        Monitor::decoded(monitor) is Ok,
        lookup(fields@, Slot::AccountDingtalkNotify.key()) == Some(Document::Bool(dingtalk_notify)),
        lookup(fields@, Slot::AccountDingtalkToken.key()) == Some(Document::Text(dingtalk_token)),
    ensures
        Account::decoded(Document::Record(fields)) matches Ok(account) && account.interval == Some(
            interval,
        ) && account.earliest_submit_time == Some(earliest_submit_time) && account.request_time
            == Some(request_time) && account.retry_times == Some(retry_times)
            && account.retry_interval == Some(retry_interval) && account.monitor == Some(
            Monitor::decoded(monitor)->Ok_0,
        ) && account.dingtalk_notify == Some(dingtalk_notify) && account.dingtalk_token == Some(
            dingtalk_token@,
        ),
{
}

/// A record that lacks a required field of an entity is no such entity.
pub proof fn law_missing_required_field(fields: Vec<Field>, slot: Slot)
    requires
        !slot.optional(),
        lookup(fields@, slot.key()) is None,
    ensures
        match slot.owner() {
            Entity::Config => Config::decoded(Document::Record(fields)) is Err,
            Entity::Account => Account::decoded(Document::Record(fields)) is Err,
            Entity::Ticket => Ticket::decoded(Document::Record(fields)) is Err,
            Entity::Monitor => Monitor::decoded(Document::Record(fields)) is Err,
            Entity::Sessions => Sessions::decoded(Document::Record(fields)) is Err,
        },
        required(fields@, slot) == Err::<Document, SchemaDecodeFailure>(
            SchemaDecodeFailure::MissingField(slot),
        ),
{
}

} // verus!

//! The loader: from the text of a configuration file to a typed value.
//!
//! The text is read as YAML into a schema-neutral tree, the tree is written
//! out as canonical JSON, and the canonical text is read into a document that
//! the schema decoder turns into the value. A text that is no YAML document
//! yields no value; every later failure is fatal.

use crate::decode::FromDocument;
use crate::document::Document;
use crate::formats::{
    document_of, json_value, parse_json, parse_yaml, render_json, rendered_json, value_document,
    yaml_tree,
};
use crate::schema::{Config, SchemaDecodeFailure};
use vstd::prelude::*;

verus! {

/// Where the configuration of the process is kept, relative to its working
/// directory.
pub const GLOBAL_CONFIG_PATH: &'static str = "./config/config.yaml";

/// Why a text yields no value.
#[derive(Debug)]
pub enum LoadFailure {
    /// The text is no document of the source format.
    Malformed,
    /// The tree of the text could not be written out as canonical text.
    Unrenderable,
    /// The canonical text could not be read back.
    Unreadable { canonical: String },
    /// The canonical document fails the schema.
    Rejected { canonical: String, reason: SchemaDecodeFailure },
}

/// A `LoadFailure` with its texts as sequences of characters.
pub enum LoadFailureModel {
    Malformed,
    Unrenderable,
    Unreadable { canonical: Seq<char> },
    Rejected { canonical: Seq<char>, reason: SchemaDecodeFailure },
}

impl LoadFailureModel {
    /// Every failure is fatal but that of the source format.
    pub open spec fn fatal(self) -> bool {
        !(self is Malformed)
    }
}

impl View for LoadFailure {
    type V = LoadFailureModel;

    open spec fn view(&self) -> LoadFailureModel {
        match self {
            LoadFailure::Malformed => LoadFailureModel::Malformed,
            LoadFailure::Unrenderable => LoadFailureModel::Unrenderable,
            LoadFailure::Unreadable { canonical } => LoadFailureModel::Unreadable {
                canonical: canonical@,
            },
            LoadFailure::Rejected { canonical, reason } => LoadFailureModel::Rejected {
                canonical: canonical@,
                reason: *reason,
            },
        }
    }
}

impl LoadFailure {
    /// Whether the process cannot go on after the failure.
    pub fn is_fatal(&self) -> (r: bool)
        ensures
            r == self@.fatal(),
    {
        match self {
            LoadFailure::Malformed => false,
            _ => true,
        }
    }
}

/// What loading `text` as a `T` comes to: the value, or the first stage that
/// fails.
pub open spec fn outcome<T: FromDocument>(text: Seq<char>) -> Result<T::V, LoadFailureModel> {
    match yaml_tree(text) {
        None => Err(LoadFailureModel::Malformed),
        Some(tree) => match rendered_json(tree) {
            None => Err(LoadFailureModel::Unrenderable),
            Some(canonical) => match json_value(canonical) {
                None => Err(LoadFailureModel::Unreadable { canonical }),
                Some(value) => match T::decoded(value_document(value)) {
                    Ok(loaded) => Ok(loaded),
                    Err(reason) => Err(LoadFailureModel::Rejected { canonical, reason }),
                },
            },
        },
    }
}

/// Whether loading `text` as a `T` ends in a fatal failure.
pub open spec fn fails_fatally<T: FromDocument>(text: Seq<char>) -> bool {
    outcome::<T>(text) matches Err(failure) && failure.fatal()
}

/// Whether `r` is what `model` says, value by view and failure by view.
pub open spec fn reports<T: View>(r: Result<T, LoadFailure>, model: Result<
    T::V,
    LoadFailureModel,
>) -> bool {
    match r {
        Ok(loaded) => model == Ok::<T::V, LoadFailureModel>(loaded@),
        Err(failure) => model == Err::<T::V, LoadFailureModel>(failure@),
    }
}

/// Decodes the canonical document of a text whose canonical form is
/// `canonical`.
pub fn decode_canonical<T: FromDocument>(canonical: String, doc: &Document) -> (r: Result<
    T,
    LoadFailure,
>)
    ensures
        match r {
            Ok(loaded) => T::decoded(*doc) == Ok::<T::V, SchemaDecodeFailure>(loaded@),
            Err(failure) => T::decoded(*doc) matches Err(reason) && failure@
                == (LoadFailureModel::Rejected { canonical: canonical@, reason }),
        },
{
    match T::from_document(doc) {
        Ok(loaded) => Ok(loaded),
        Err(reason) => Err(LoadFailure::Rejected { canonical, reason }),
    }
}

/// Carries `text` through every stage of the loader.
pub fn load<T: FromDocument>(text: &str) -> (r: Result<T, LoadFailure>)
    ensures
        reports(r, outcome::<T>(text@)),
{
    match parse_yaml(text) {
        Err(_) => Err(LoadFailure::Malformed),
        Ok(tree) => match render_json(&tree) {
            Err(_) => Err(LoadFailure::Unrenderable),
            Ok(canonical) => match parse_json(canonical.as_str()) {
                Err(_) => Err(LoadFailure::Unreadable { canonical }),
                Ok(value) => {
                    let doc = document_of(&value);
                    decode_canonical::<T>(canonical, &doc)
                },
            },
        },
    }
}

/// The fatal failure that loading `text` as a `T` ends in, if it ends in one.
pub fn fatal_failure<T: FromDocument>(text: &str) -> (r: Option<LoadFailure>)
    ensures
        match r {
            Some(failure) => failure@.fatal() && outcome::<T>(text@) == Err::<
                T::V,
                LoadFailureModel,
            >(failure@),
            None => !fails_fatally::<T>(text@),
        },
{
    match load::<T>(text) {
        Ok(_) => None,
        Err(failure) => if failure.is_fatal() {
            Some(failure)
        } else {
            None
        },
    }
}

/// Loads a `T` from the text of a configuration file. A text that is no
/// document of the source format yields `None`.
pub fn load_config<T: FromDocument>(text: &str) -> (r: Option<T>)
    requires
        !fails_fatally::<T>(text@),
    ensures
        match r {
            Some(loaded) => outcome::<T>(text@) == Ok::<T::V, LoadFailureModel>(loaded@),
            None => outcome::<T>(text@) == Err::<T::V, LoadFailureModel>(
                LoadFailureModel::Malformed,
            ),
        },
{
    match load::<T>(text) {
        Ok(loaded) => Some(loaded),
        Err(_) => None,
    }
}

/// Loads a `T` from the text of a configuration file, and reports a fatal
/// failure instead of requiring that there is none.
pub fn try_load_config<T: FromDocument>(text: &str) -> (r: Result<Option<T>, LoadFailure>)
    ensures
        match r {
            Ok(Some(loaded)) => outcome::<T>(text@) == Ok::<T::V, LoadFailureModel>(loaded@),
            Ok(None) => outcome::<T>(text@) == Err::<T::V, LoadFailureModel>(
                LoadFailureModel::Malformed,
            ),
            Err(failure) => failure@.fatal() && outcome::<T>(text@) == Err::<
                T::V,
                LoadFailureModel,
            >(failure@),
        },
{
    match fatal_failure::<T>(text) {
        Some(failure) => Err(failure),
        None => Ok(load_config::<T>(text)),
    }
}

/// Loads the configuration of the process from the text of the file at
/// `GLOBAL_CONFIG_PATH`.
pub fn load_global_config(text: &str) -> (r: Option<Config>)
    requires
        !fails_fatally::<Config>(text@),
    ensures
        match r {
            Some(config) => outcome::<Config>(text@) == Ok::<
                crate::schema::ConfigView,
                LoadFailureModel,
            >(config@),
            None => outcome::<Config>(text@) == Err::<crate::schema::ConfigView, LoadFailureModel>(
                LoadFailureModel::Malformed,
            ),
        },
{
    load_config::<Config>(text)
}

/// Loads the configuration of the process, and reports a fatal failure
/// instead of requiring that there is none.
pub fn try_load_global_config(text: &str) -> (r: Result<Option<Config>, LoadFailure>)
    ensures
        match r {
            Ok(Some(config)) => outcome::<Config>(text@) == Ok::<
                crate::schema::ConfigView,
                LoadFailureModel,
            >(config@),
            Ok(None) => outcome::<Config>(text@) == Err::<
                crate::schema::ConfigView,
                LoadFailureModel,
            >(LoadFailureModel::Malformed),
            Err(failure) => failure@.fatal() && outcome::<Config>(text@) == Err::<
                crate::schema::ConfigView,
                LoadFailureModel,
            >(failure@),
        },
{
    match fatal_failure::<Config>(text) {
        Some(failure) => Err(failure),
        None => Ok(load_global_config(text)),
    }
}

/// A text that is no document of the source format yields no value, and that
/// is no fatal failure.
pub proof fn law_malformed_text_yields_nothing<T: FromDocument>(text: Seq<char>)
    requires
        yaml_tree(text) is None,
    ensures
        outcome::<T>(text) == Err::<T::V, LoadFailureModel>(LoadFailureModel::Malformed),
        !fails_fatally::<T>(text),
{
}

/// A text that is a document of the source format, but whose canonical
/// document fails the schema, fails fatally, and the failure names the
/// canonical text.
pub proof fn law_schema_failure_is_fatal<T: FromDocument>(text: Seq<char>)
    requires
        yaml_tree(text) matches Some(tree) && rendered_json(tree) matches Some(canonical)
            && json_value(canonical) matches Some(value) && T::decoded(value_document(value)) is Err,
    ensures
        fails_fatally::<T>(text),
        outcome::<T>(text) matches Err(LoadFailureModel::Rejected { canonical, reason })
            && rendered_json(yaml_tree(text)->Some_0) == Some(canonical),
{
}

} // verus!

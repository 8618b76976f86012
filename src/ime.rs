use vstd::prelude::*;

use crate::error::{AppError, ErrorView};

verus! {

/// The platform's keyboard input-source service: one implementation per
/// supported system, and [`UnsupportedInputSource`] elsewhere.
pub trait InputSource {
    /// The identifier of the selected input source, where the service can
    /// tell it.
    fn current_source_id(&self) -> Option<String>;

    /// Selects the first ASCII-capable input source and returns its
    /// identifier.
    fn select_ascii_source(&mut self) -> Option<String>;

    /// Selects the input source with identifier `id`; whether that succeeded.
    fn select_source_by_id(&mut self, id: &str) -> bool;
}

/// The service on systems that have no input-source switching: it reports
/// `unsupported` and selects nothing.
pub struct UnsupportedInputSource;

impl InputSource for UnsupportedInputSource {
    fn current_source_id(&self) -> Option<String> {
        Some(String::from_str("unsupported"))
    }

    fn select_ascii_source(&mut self) -> Option<String> {
        Some(String::from_str("unsupported"))
    }

    fn select_source_by_id(&mut self, _id: &str) -> bool {
        false
    }
}

/// Selects the ASCII-capable input source and returns the identifier of the
/// one that was selected before. What the service reports is its own
/// affair, so nothing is stated of it.
pub fn save_and_switch_to_ascii<S: InputSource>(source: &mut S) -> Option<String> {
    let prev = source.current_source_id();
    source.select_ascii_source();
    prev
}

/// The command result for an identifier that the service may not have given:
/// the identifier, or an input-source failure with `failure` as its reason.
pub fn require_source(outcome: Option<String>, failure: &str) -> (r: Result<String, AppError>)
    ensures
        match outcome {
            Some(id) => r is Ok && r->Ok_0 == id,
            None => r is Err && r->Err_0@ == ErrorView::Ime(failure@),
        },
{
    match outcome {
        Some(id) => Ok(id),
        None => Err(AppError::Ime(String::from_str(failure))),
    }
}

/// The identifier of the selected input source.
pub fn get_input_source<S: InputSource>(source: &S) -> (r: Result<String, AppError>)
    ensures
        r is Err ==> r->Err_0@ == ErrorView::Ime("Failed to get input source"@),
{
    require_source(source.current_source_id(), "Failed to get input source")
}

/// Switches to the ASCII-capable input source and returns its identifier.
pub fn select_ascii_input<S: InputSource>(source: &mut S) -> (r: Result<String, AppError>)
    ensures
        r is Err ==> r->Err_0@ == ErrorView::Ime("Failed to select ASCII input source"@),
{
    let outcome = source.select_ascii_source();
    require_source(outcome, "Failed to select ASCII input source")
}

/// Switches to the ASCII-capable input source and returns the identifier of
/// the one selected before.
pub fn ime_save_and_switch_ascii<S: InputSource>(source: &mut S) -> (r: Result<
    String,
    AppError,
>)
    ensures
        r is Err ==> r->Err_0@ == ErrorView::Ime("Failed to switch input source"@),
{
    let prev = save_and_switch_to_ascii(source);
    require_source(prev, "Failed to switch input source")
}

/// Selects the input source with identifier `source_id`; whether that
/// succeeded.
pub fn select_input_source<S: InputSource>(source: &mut S, source_id: String) -> (r: Result<
    bool,
    AppError,
>)
    ensures
        r is Ok,
{
    Ok(source.select_source_by_id(source_id.as_str()))
}

} // verus!

//! What the one-shot bank commands report once the service has answered.

use vstd::prelude::*;

verus! {

/// How a command presents its result.
#[derive(Clone, Copy, Debug, PartialEq, Eq, Structural)]
pub enum OutputFormat {
    Pretty,
    Json,
}

/// The profile of a bank as far as the reports read it.
#[derive(Debug)]
pub struct BankProfile {
    pub bank_id: String,
    pub name: String,
    pub background: String,
}

/// What a command hands to the terminal.
#[derive(Debug)]
pub enum Report {
    /// A profile laid out for reading, under a heading.
    Card { heading: String, profile: BankProfile },
    /// One line that confirms a change.
    Success(String),
    /// The profile as data, to be written in the format asked for.
    Structured(BankProfile),
}

/// A spinner accompanies the request only when the output is meant for reading.
pub fn shows_spinner(format: OutputFormat) -> (b: bool)
    ensures
        b == (format is Pretty),
{
    match format {
        OutputFormat::Pretty => true,
        OutputFormat::Json => false,
    }
}

/// The heading of a profile card.
pub open spec fn profile_heading(bank_id: Seq<char>) -> Seq<char> {
    "Bank Profile: "@ + bank_id
}

/// The line that confirms a new bank name.
pub open spec fn rename_notice(name: Seq<char>) -> Seq<char> {
    "Bank name updated to '"@ + name + "'"@
}

/// Reports the profile of a bank: as a card for reading, else as data. A
/// failed request is passed on as it is.
pub fn profile<E>(response: Result<BankProfile, E>, format: OutputFormat) -> (report: Result<Report, E>)
    ensures
        match response {
            Ok(p) => match format {
                OutputFormat::Pretty => report matches Ok(Report::Card { heading, profile })
                    && heading@ == profile_heading(p.bank_id@) && profile == p,
                OutputFormat::Json => report == Ok::<Report, E>(Report::Structured(p)),
            },
            Err(e) => report == Err::<Report, E>(e),
        },
{
    match response {
        Ok(p) => match format {
            OutputFormat::Pretty => {
                let mut heading = String::from_str("Bank Profile: ");
                heading.append(p.bank_id.as_str());
                Ok(Report::Card { heading, profile: p })
            },
            OutputFormat::Json => Ok(Report::Structured(p)),
        },
        Err(e) => Err(e),
    }
}

/// Reports a changed bank name: as a confirming line that quotes the name the
/// service now holds, else as data. A failed request is passed on as it is.
pub fn update_name<E>(response: Result<BankProfile, E>, format: OutputFormat) -> (report: Result<
    Report,
    E,
>)
    ensures
        match response {
            Ok(p) => match format {
                OutputFormat::Pretty => report matches Ok(Report::Success(line)) && line@
                    == rename_notice(p.name@),
                OutputFormat::Json => report == Ok::<Report, E>(Report::Structured(p)),
            },
            Err(e) => report == Err::<Report, E>(e),
        },
{
    match response {
        Ok(p) => match format {
            OutputFormat::Pretty => {
                let mut line = String::from_str("Bank name updated to '");
                line.append(p.name.as_str());
                line.append("'");
                Ok(Report::Success(line))
            },
            OutputFormat::Json => Ok(Report::Structured(p)),
        },
        Err(e) => Err(e),
    }
}

} // verus!

//! What the page shows and what it reports: button events, alert kinds,
//! and the baud-rate selector.

use vstd::prelude::*;
use crate::text::{decimal_digits, decimal_string, parse_u32, parsed_u32, lemma_decimal_round_trip};

verus! {

/// A click on one of the page's four buttons.
#[derive(Debug, Clone, Copy, PartialEq, Eq, Structural)]
pub enum Events {
    OpenFileClicked,
    SelectDeviceClicked,
    StartClicked,
    StopClicked,
}

/// The look of an alert box.
#[derive(Debug, Clone, Copy, PartialEq, Eq, Structural)]
#[allow(unused)]
pub enum AlertType {
    Error,
    Warning,
    Info,
    Success,
    Unspecified,
}

/// An alert to add to the page: its look and its text.
pub struct Alert {
    pub kind: AlertType,
    pub message: String,
}

/// The baud rate used when the selector's value is not a rate.
pub const DEFAULT_BAUD_RATE: u32 = 230400;

/// The rates the selector offers, in the order shown.
pub open spec fn baud_rates() -> Seq<u32> {
    seq![9600, 19200, 38400, 57600, 115200, 230400, 460800, 500000, 576000, 921600]
}

/// One entry of the baud-rate selector.
pub struct BaudOption {
    pub rate: u32,
    /// The option's text and value.
    pub label: String,
    /// Whether the option starts out selected.
    pub selected: bool,
}

/// The selector's entries: each offered rate with its decimal text, the
/// default rate alone selected.
pub fn baud_rate_options() -> (options: Vec<BaudOption>)
    ensures
        options@.len() == baud_rates().len(),
        forall|i: int|
            0 <= i < options@.len() ==> {
                &&& #[trigger] options@[i].rate == baud_rates()[i]
                &&& options@[i].label@ == decimal_digits(options@[i].rate as nat)
                &&& options@[i].selected == (options@[i].rate == DEFAULT_BAUD_RATE)
            },
{
    let rates: Vec<u32> = vec![9600, 19200, 38400, 57600, 115200, 230400, 460800, 500000, 576000, 921600];
    assert(rates@ =~= baud_rates());
    let mut options: Vec<BaudOption> = Vec::new();
    let mut i: usize = 0;
    while i < rates.len()
        invariant
            rates@ == baud_rates(),
            i <= rates@.len(),
            options@.len() == i,
            forall|j: int|
                0 <= j < i ==> {
                    &&& #[trigger] options@[j].rate == baud_rates()[j]
                    &&& options@[j].label@ == decimal_digits(options@[j].rate as nat)
                    &&& options@[j].selected == (options@[j].rate == DEFAULT_BAUD_RATE)
                },
        decreases rates@.len() - i,
    {
        let rate = rates[i];
        options.push(BaudOption {
            rate,
            label: decimal_string(rate as u64),
            selected: rate == DEFAULT_BAUD_RATE,
        });
        i = i + 1;
    }
    options
}

/// The rate that a selector value stands for.
pub open spec fn baud_rate_of(value: Seq<char>) -> u32 {
    match parsed_u32(value) {
        Some(rate) => rate,
        None => DEFAULT_BAUD_RATE,
    }
}

/// The rate chosen in the selector, given its current value: the value read
/// as a `u32`, or the default rate where it is not one.
pub fn baud_rate_from_value(value: &str) -> (rate: u32)
    ensures
        rate == baud_rate_of(value@),
{
    match parse_u32(value) {
        Some(rate) => rate,
        None => DEFAULT_BAUD_RATE,
    }
}

/// The value of every entry of the selector stands for that entry's rate.
pub proof fn lemma_option_value_is_rate(rate: u32)
    ensures
        baud_rate_of(decimal_digits(rate as nat)) == rate,
{
    lemma_decimal_round_trip(rate);
}

/// The entry selected at first carries the default rate, and it is the only
/// entry that does.
pub proof fn lemma_default_rate_offered_once()
    ensures
        baud_rates()[5] == DEFAULT_BAUD_RATE,
        forall|i: int| 0 <= i < baud_rates().len() && i != 5 ==> baud_rates()[i] != DEFAULT_BAUD_RATE,
{
}

} // verus!

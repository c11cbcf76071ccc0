//! Decoding of the Linux kernel's route tables (`/proc/net/route` and
//! `/proc/net/ipv6_route`) from their hexadecimal text lines into typed entries.
use vstd::prelude::*;

pub mod addr;
pub mod fields;
pub mod flags;
pub mod hex;
pub mod ipv4;
pub mod ipv6;

use crate::hex::{ConvertError, ConvertErrorView};
use crate::ipv4::Ipv4RouteTable;
use crate::ipv6::Ipv6RouteTable;

verus! {

/// Declares `std::io::Error`, the failure of a line source, so that an entry
/// error can carry it to the caller. Nothing is assumed of its contents.
#[verifier::external_type_specification]
#[verifier::external_body]
pub struct ExIoError(std::io::Error);

/// Why one line of a route table gave no entry.
#[derive(Debug)]
pub enum RouteParseError {
    /// Reading the line failed.
    Io(std::io::Error),
    /// A field held malformed hexadecimal text.
    Convert(ConvertError),
    /// The line had fewer fields than an entry needs.
    InvalidFieldCount { expected: usize, found: usize },
    /// The field at this index was absent. The parsers here never give it:
    /// they check the field count first, and the indices are proved in range.
    MissingField(usize),
    /// A field decoded to a number of bytes other than its type's width.
    SliceToBytes,
}

/// What a `RouteParseError` says; an I/O error is known only as such.
pub enum RouteParseErrorView {
    Io,
    Convert(ConvertErrorView),
    InvalidFieldCount { expected: nat, found: nat },
    MissingField(nat),
    SliceToBytes,
}

impl View for RouteParseError {
    type V = RouteParseErrorView;

    open spec fn view(&self) -> RouteParseErrorView {
        match self {
            RouteParseError::Io(_) => RouteParseErrorView::Io,
            RouteParseError::Convert(e) => RouteParseErrorView::Convert(e@),
            RouteParseError::InvalidFieldCount { expected, found } =>
                RouteParseErrorView::InvalidFieldCount {
                expected: *expected as nat,
                found: *found as nat,
            },
            RouteParseError::MissingField(i) => RouteParseErrorView::MissingField(*i as nat),
            RouteParseError::SliceToBytes => RouteParseErrorView::SliceToBytes,
        }
    }
}

/// What a route table made of one read from its line source.
pub enum TableStep<T> {
    /// The line was a header line and was passed over.
    Skipped,
    /// The line, or the failure to read it, as one item of the table.
    Item(Result<T, RouteParseError>),
    /// The source has ended: the table yields nothing more.
    Exhausted,
}

/// A field decoding failure, as the failure of the line.
pub open spec fn converted<T>(r: Result<T, ConvertErrorView>) -> Result<T, RouteParseErrorView> {
    match r {
        Ok(v) => Ok(v),
        Err(e) => Err(RouteParseErrorView::Convert(e)),
    }
}

/// The table for `/proc/net/route`, whose first line is a column header.
pub fn get_ipv4_route_table() -> (r: Ipv4RouteTable)
    ensures
        r.header_lines == 1,
        !r.exhausted,
{
    Ipv4RouteTable::new(1)
}

/// The table for `/proc/net/ipv6_route`, which has no header line.
pub fn get_ipv6_route_table() -> (r: Ipv6RouteTable)
    ensures
        r.header_lines == 0,
        !r.exhausted,
{
    Ipv6RouteTable::new(0)
}

} // verus!

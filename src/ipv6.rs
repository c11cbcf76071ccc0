//! Entries of the IPv6 route table, `/proc/net/ipv6_route`.
use vstd::prelude::*;
use crate::addr::{hex_str_to_ipv6, ipv6_text_decode, Ipv6Address};
use crate::fields::{pair_field, pair_field_decode, split_fields, u32_field, u32_field_decode, words};
use crate::flags::Ipv6RouteFlags;
use crate::{converted, RouteParseError, RouteParseErrorView, TableStep};

verus! {

/// The number of fields of a line of the IPv6 table.
pub const IPV6_FIELD_COUNT: usize = 10;

/// One route of the IPv6 table.
#[derive(Debug, Clone)]
pub struct Ipv6RouteEntry {
    pub dest: Ipv6Address,
    pub dest_prefix: u8,
    pub src: Ipv6Address,
    pub src_prefix: u8,
    pub next_hop: Ipv6Address,
    pub metric: u32,
    pub ref_count: u32,
    pub use_count: u32,
    pub flags: Ipv6RouteFlags,
    pub name: String,
}

/// An IPv6 entry as values: addresses as their octets, flags as their bits.
pub struct Ipv6RouteEntryView {
    pub dest: Seq<u8>,
    pub dest_prefix: u8,
    pub src: Seq<u8>,
    pub src_prefix: u8,
    pub next_hop: Seq<u8>,
    pub metric: u32,
    pub ref_count: u32,
    pub use_count: u32,
    pub flags: u32,
    pub name: Seq<char>,
}

impl View for Ipv6RouteEntry {
    type V = Ipv6RouteEntryView;

    open spec fn view(&self) -> Ipv6RouteEntryView {
        Ipv6RouteEntryView {
            dest: self.dest.octets@,
            dest_prefix: self.dest_prefix,
            src: self.src.octets@,
            src_prefix: self.src_prefix,
            next_hop: self.next_hop.octets@,
            metric: self.metric,
            ref_count: self.ref_count,
            use_count: self.use_count,
            flags: self.flags.bits,
            name: self.name@,
        }
    }
}

/// The entry that the fields `w` of a line describe, or the first failure,
/// field by field from the left.
pub open spec fn ipv6_entry_decode(w: Seq<Seq<char>>) -> Result<
    Ipv6RouteEntryView,
    RouteParseErrorView,
> {
    if w.len() < 10 {
        Err(RouteParseErrorView::InvalidFieldCount { expected: 10, found: w.len() })
    } else {
        let dest = converted(ipv6_text_decode(w[0]));
        let dest_prefix = pair_field_decode(w[1]);
        let src = converted(ipv6_text_decode(w[2]));
        let src_prefix = pair_field_decode(w[3]);
        let next_hop = converted(ipv6_text_decode(w[4]));
        let metric = u32_field_decode(w[5]);
        let ref_count = u32_field_decode(w[6]);
        let use_count = u32_field_decode(w[7]);
        let flags = u32_field_decode(w[8]);
        if dest is Err {
            Err(dest->Err_0)
        } else if dest_prefix is Err {
            Err(dest_prefix->Err_0)
        } else if src is Err {
            Err(src->Err_0)
        } else if src_prefix is Err {
            Err(src_prefix->Err_0)
        } else if next_hop is Err {
            Err(next_hop->Err_0)
        } else if metric is Err {
            Err(metric->Err_0)
        } else if ref_count is Err {
            Err(ref_count->Err_0)
        } else if use_count is Err {
            Err(use_count->Err_0)
        } else if flags is Err {
            Err(flags->Err_0)
        } else {
            Ok(
                Ipv6RouteEntryView {
                    dest: dest->Ok_0,
                    dest_prefix: dest_prefix->Ok_0,
                    src: src->Ok_0,
                    src_prefix: src_prefix->Ok_0,
                    next_hop: next_hop->Ok_0,
                    metric: metric->Ok_0,
                    ref_count: ref_count->Ok_0,
                    use_count: use_count->Ok_0,
                    flags: flags->Ok_0,
                    name: w[9],
                },
            )
        }
    }
}

/// Decodes an address field of the IPv6 table.
fn address_field(field: &str) -> (r: Result<Ipv6Address, RouteParseError>)
    ensures
        match r {
            Ok(a) => converted(ipv6_text_decode(field@)) == Ok::<Seq<u8>, RouteParseErrorView>(
                a.octets@,
            ),
            Err(e) => converted(ipv6_text_decode(field@)) == Err::<Seq<u8>, RouteParseErrorView>(
                e@,
            ),
        },
{
    match hex_str_to_ipv6(field) {
        Ok(a) => Ok(a),
        Err(e) => Err(RouteParseError::Convert(e)),
    }
}

/// All sixteen octets are zero: the unspecified address `::`.
pub open spec fn is_unspecified(o: Seq<u8>) -> bool {
    forall|i: int| 0 <= i < 16 ==> o[i] == 0
}

/// The loopback address `::1`.
pub open spec fn is_loopback_address(o: Seq<u8>) -> bool {
    (forall|i: int| 0 <= i < 15 ==> o[i] == 0) && o[15] == 1
}

/// Tells whether the address is `::` (when `last` is 0) or `::1` (when `last` is 1).
fn is_zeros_then(a: &Ipv6Address, last: u8) -> (r: bool)
    ensures
        r == ((forall|i: int| 0 <= i < 15 ==> a.octets@[i] == 0) && a.octets@[15] == last),
{
    let mut i: usize = 0;
    while i < 15
        invariant
            i <= 15,
            forall|j: int| 0 <= j < i ==> a.octets@[j] == 0,
        decreases 15 - i,
    {
        if a.octets[i] != 0 {
            return false;
        }
        i += 1;
    }
    a.octets[15] == last
}

impl Ipv6RouteEntry {
    /// Parses one line of the IPv6 table: at least ten whitespace-separated
    /// fields, of which the first ten are decoded; the first field that fails
    /// decides the error.
    pub fn parse_line(line: &str) -> (r: Result<Ipv6RouteEntry, RouteParseError>)
        ensures
            match r {
                Ok(e) => ipv6_entry_decode(words(line@)) == Ok::<
                    Ipv6RouteEntryView,
                    RouteParseErrorView,
                >(e@),
                Err(e) => ipv6_entry_decode(words(line@)) == Err::<
                    Ipv6RouteEntryView,
                    RouteParseErrorView,
                >(e@),
            },
    {
        let fields = split_fields(line);
        let ghost w = words(line@);
        if fields.len() < IPV6_FIELD_COUNT {
            return Err(
                RouteParseError::InvalidFieldCount {
                    expected: IPV6_FIELD_COUNT,
                    found: fields.len(),
                },
            );
        }
        assert(fields@[0]@ == w[0] && fields@[1]@ == w[1] && fields@[2]@ == w[2]);
        assert(fields@[3]@ == w[3] && fields@[4]@ == w[4] && fields@[5]@ == w[5]);
        assert(fields@[6]@ == w[6] && fields@[7]@ == w[7] && fields@[8]@ == w[8]);
        assert(fields@[9]@ == w[9]);
        let dest = match address_field(fields[0]) {
            Ok(v) => v,
            Err(e) => return Err(e),
        };
        let dest_prefix = match pair_field(fields[1]) {
            Ok(v) => v,
            Err(e) => return Err(e),
        };
        let src = match address_field(fields[2]) {
            Ok(v) => v,
            Err(e) => return Err(e),
        };
        let src_prefix = match pair_field(fields[3]) {
            Ok(v) => v,
            Err(e) => return Err(e),
        };
        let next_hop = match address_field(fields[4]) {
            Ok(v) => v,
            Err(e) => return Err(e),
        };
        let metric = match u32_field(fields[5]) {
            Ok(v) => v,
            Err(e) => return Err(e),
        };
        let ref_count = match u32_field(fields[6]) {
            Ok(v) => v,
            Err(e) => return Err(e),
        };
        let use_count = match u32_field(fields[7]) {
            Ok(v) => v,
            Err(e) => return Err(e),
        };
        let flags = match u32_field(fields[8]) {
            Ok(v) => v,
            Err(e) => return Err(e),
        };
        let name = fields[9].to_owned();
        Ok(
            Ipv6RouteEntry {
                dest,
                dest_prefix,
                src,
                src_prefix,
                next_hop,
                metric,
                ref_count,
                use_count,
                flags: Ipv6RouteFlags::from_bits_retain(flags),
                name,
            },
        )
    }

    /// The route leads out of the host: its destination prefix is empty.
    pub fn is_outbound(&self) -> (r: bool)
        ensures
            r == (self.dest_prefix == 0),
    {
        self.dest_prefix == 0
    }

    /// The route is not outbound.
    pub fn is_inbound(&self) -> (r: bool)
        ensures
            r == (self.dest_prefix != 0),
    {
        !self.is_outbound()
    }

    /// Destination or source is `::1`, or both are `::`.
    pub fn is_loopback(&self) -> (r: bool)
        ensures
            r == (is_loopback_address(self.dest.octets@) || is_loopback_address(self.src.octets@)
                || (is_unspecified(self.dest.octets@) && is_unspecified(self.src.octets@))),
    {
        is_zeros_then(&self.dest, 1) || is_zeros_then(&self.src, 1) || (is_zeros_then(
            &self.dest,
            0,
        ) && is_zeros_then(&self.src, 0))
    }

    /// Destination or source is `::`.
    pub fn is_default(&self) -> (r: bool)
        ensures
            r == (is_unspecified(self.dest.octets@) || is_unspecified(self.src.octets@)),
    {
        is_zeros_then(&self.dest, 0) || is_zeros_then(&self.src, 0)
    }
}

impl std::str::FromStr for Ipv6RouteEntry {
    type Err = RouteParseError;

    fn from_str(line: &str) -> (r: Result<Self, Self::Err>)
        ensures
            ipv6_item_agrees(r, line@),
    {
        Ipv6RouteEntry::parse_line(line)
    }
}

/// The decoding state of the IPv6 route table over a line source: how many
/// header lines are still to be passed over, and whether the source has ended.
pub struct Ipv6RouteTable {
    pub header_lines: usize,
    pub exhausted: bool,
}

/// `item` is what parsing `line` gives.
pub open spec fn ipv6_item_agrees(item: Result<Ipv6RouteEntry, RouteParseError>, line: Seq<char>) -> bool {
    match item {
        Ok(e) => ipv6_entry_decode(words(line)) == Ok::<Ipv6RouteEntryView, RouteParseErrorView>(e@),
        Err(e) => ipv6_entry_decode(words(line)) == Err::<Ipv6RouteEntryView, RouteParseErrorView>(e@),
    }
}

impl Ipv6RouteTable {
    /// A table that passes over the first `header_lines` lines of its source.
    pub fn new(header_lines: usize) -> (r: Self)
        ensures
            r.header_lines == header_lines,
            !r.exhausted,
    {
        Ipv6RouteTable { header_lines, exhausted: false }
    }

    /// Takes the next read from the line source (`None` at its end) and says
    /// what it gives: a header line is passed over, a line is parsed, a
    /// failed read is an item of its own (also where a header line was
    /// due, which then stays due), and the end of the source ends the table
    /// for good.
    pub fn next_line(&mut self, read: Option<Result<String, std::io::Error>>) -> (r: TableStep<
        Ipv6RouteEntry,
    >)
        ensures
            old(self).exhausted || read is None ==> r is Exhausted && final(self).exhausted
                && final(self).header_lines == old(self).header_lines,
            !old(self).exhausted && read is Some && read->0 is Ok && old(self).header_lines > 0
                ==> r is Skipped
                && !final(self).exhausted && final(self).header_lines == old(self).header_lines
                - 1,
            !old(self).exhausted && read is Some && read->0 is Ok && old(self).header_lines
                == 0
                ==> *final(self) == *old(self) && r is Item && ipv6_item_agrees(r->Item_0, read->0->Ok_0@),
            !old(self).exhausted && read is Some && read->0 is Err ==> *final(self) == *old(self)
                && r is Item && r->Item_0 is Err && r->Item_0->Err_0 is Io,
    {
        if self.exhausted {
            return TableStep::Exhausted;
        }
        match read {
            None => {
                self.exhausted = true;
                TableStep::Exhausted
            },
            Some(Err(e)) => TableStep::Item(Err(RouteParseError::Io(e))),
            Some(Ok(line)) => {
                if self.header_lines > 0 {
                    self.header_lines = self.header_lines - 1;
                    TableStep::Skipped
                } else {
                    TableStep::Item(Ipv6RouteEntry::parse_line(line.as_str()))
                }
            },
        }
    }

    /// Runs the table over a source that holds `lines` and then ends: one
    /// item for each line after the header lines still to be passed over.
    pub fn read_all(&mut self, lines: &[String]) -> (r: Vec<Result<Ipv6RouteEntry, RouteParseError>>)
        ensures
            final(self).exhausted,
            old(self).exhausted ==> r@.len() == 0 && final(self).header_lines == old(
                self,
            ).header_lines,
            !old(self).exhausted ==> {
                let skip = if old(self).header_lines < lines@.len() {
                    old(self).header_lines as int
                } else {
                    lines@.len() as int
                };
                &&& r@.len() == lines@.len() - skip
                &&& final(self).header_lines == old(self).header_lines - skip
                &&& forall|k: int|
                    0 <= k < r@.len() ==> ipv6_item_agrees(#[trigger] r@[k], lines@[k + skip]@)
            },
    {
        let mut items: Vec<Result<Ipv6RouteEntry, RouteParseError>> = Vec::new();
        if self.exhausted {
            return items;
        }
        let ghost h = self.header_lines;
        let mut i: usize = 0;
        while i < lines.len()
            invariant
                !self.exhausted,
                i <= lines@.len(),
                h == old(self).header_lines,
                !old(self).exhausted,
                i <= h ==> items@.len() == 0 && self.header_lines == h - i,
                i > h ==> items@.len() == i - h && self.header_lines == 0,
                forall|k: int|
                    0 <= k < items@.len() ==> ipv6_item_agrees(#[trigger] items@[k], lines@[k + h]@),
            decreases lines@.len() - i,
        {
            let step = self.next_line(Some(Ok(lines[i].clone())));
            match step {
                TableStep::Item(item) => {
                    items.push(item);
                },
                _ => {},
            }
            i += 1;
        }
        self.next_line(None);
        items
    }
}

} // verus!

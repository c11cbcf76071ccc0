//! Entries of the IPv4 route table, `/proc/net/route`.
use vstd::prelude::*;
use vstd::utf8::encode_utf8;
use crate::addr::{hex_str_to_ipv4, ipv4_text_decode, Ipv4Address};
use crate::fields::{pair_field, pair_field_decode, split_fields, u16_field, u16_field_decode, words};
use crate::flags::Ipv4RouteFlags;
use crate::hex::{hex_char_to_u8, is_hex_digit, nibble_value, ConvertErrorView};
use crate::{converted, RouteParseError, RouteParseErrorView, TableStep};

verus! {

/// The number of fields of a line of the IPv4 table.
pub const IPV4_FIELD_COUNT: usize = 11;

/// One route of the IPv4 table.
#[derive(Debug, Clone)]
pub struct Ipv4RouteEntry {
    pub name: String,
    pub dest: Ipv4Address,
    pub gateway: Ipv4Address,
    pub flags: Ipv4RouteFlags,
    pub ref_count: u8,
    pub use_count: u8,
    pub metric: u8,
    pub mask: Ipv4Address,
    pub mtu: u8,
    pub window: u8,
    pub irtt: u8,
}

/// An IPv4 entry as values: addresses as their octets, flags as their bits.
pub struct Ipv4RouteEntryView {
    pub name: Seq<char>,
    pub dest: Seq<u8>,
    pub gateway: Seq<u8>,
    pub flags: u16,
    pub ref_count: u8,
    pub use_count: u8,
    pub metric: u8,
    pub mask: Seq<u8>,
    pub mtu: u8,
    pub window: u8,
    pub irtt: u8,
}

impl View for Ipv4RouteEntry {
    type V = Ipv4RouteEntryView;

    open spec fn view(&self) -> Ipv4RouteEntryView {
        Ipv4RouteEntryView {
            name: self.name@,
            dest: self.dest.octets@,
            gateway: self.gateway.octets@,
            flags: self.flags.bits,
            ref_count: self.ref_count,
            use_count: self.use_count,
            metric: self.metric,
            mask: self.mask.octets@,
            mtu: self.mtu,
            window: self.window,
            irtt: self.irtt,
        }
    }
}

/// A one-byte counter of the IPv4 table: one digit, or two digits.
pub open spec fn byte_field_decode(t: Seq<char>) -> Result<u8, RouteParseErrorView> {
    let b = encode_utf8(t);
    if b.len() == 1 {
        if is_hex_digit(b[0]) {
            Ok(nibble_value(b[0]))
        } else {
            Err(RouteParseErrorView::Convert(ConvertErrorView::OutOfHexRange(b[0])))
        }
    } else {
        pair_field_decode(t)
    }
}

/// The entry that the fields `w` of a line describe, or the first failure,
/// field by field from the left.
pub open spec fn ipv4_entry_decode(w: Seq<Seq<char>>) -> Result<
    Ipv4RouteEntryView,
    RouteParseErrorView,
> {
    if w.len() < 11 {
        Err(RouteParseErrorView::InvalidFieldCount { expected: 11, found: w.len() })
    } else {
        let dest = converted(ipv4_text_decode(w[1]));
        let gateway = converted(ipv4_text_decode(w[2]));
        let flags = u16_field_decode(w[3]);
        let ref_count = byte_field_decode(w[4]);
        let use_count = byte_field_decode(w[5]);
        let metric = byte_field_decode(w[6]);
        let mask = converted(ipv4_text_decode(w[7]));
        let mtu = byte_field_decode(w[8]);
        let window = byte_field_decode(w[9]);
        let irtt = byte_field_decode(w[10]);
        if dest is Err {
            Err(dest->Err_0)
        } else if gateway is Err {
            Err(gateway->Err_0)
        } else if flags is Err {
            Err(flags->Err_0)
        } else if ref_count is Err {
            Err(ref_count->Err_0)
        } else if use_count is Err {
            Err(use_count->Err_0)
        } else if metric is Err {
            Err(metric->Err_0)
        } else if mask is Err {
            Err(mask->Err_0)
        } else if mtu is Err {
            Err(mtu->Err_0)
        } else if window is Err {
            Err(window->Err_0)
        } else if irtt is Err {
            Err(irtt->Err_0)
        } else {
            Ok(
                Ipv4RouteEntryView {
                    name: w[0],
                    dest: dest->Ok_0,
                    gateway: gateway->Ok_0,
                    flags: flags->Ok_0,
                    ref_count: ref_count->Ok_0,
                    use_count: use_count->Ok_0,
                    metric: metric->Ok_0,
                    mask: mask->Ok_0,
                    mtu: mtu->Ok_0,
                    window: window->Ok_0,
                    irtt: irtt->Ok_0,
                },
            )
        }
    }
}

/// Decodes a one-byte counter written with one or two hexadecimal digits.
pub fn byte_field(field: &str) -> (r: Result<u8, RouteParseError>)
    ensures
        match r {
            Ok(v) => byte_field_decode(field@) == Ok::<u8, RouteParseErrorView>(v),
            Err(e) => byte_field_decode(field@) == Err::<u8, RouteParseErrorView>(e@),
        },
{
    let b = field.as_bytes();
    if b.len() == 1 {
        match hex_char_to_u8(b[0]) {
            Ok(v) => Ok(v),
            Err(e) => Err(RouteParseError::Convert(e)),
        }
    } else {
        pair_field(field)
    }
}

/// Decodes an address field of the IPv4 table.
fn address_field(field: &str) -> (r: Result<Ipv4Address, RouteParseError>)
    ensures
        match r {
            Ok(a) => converted(ipv4_text_decode(field@)) == Ok::<Seq<u8>, RouteParseErrorView>(
                a.octets@,
            ),
            Err(e) => converted(ipv4_text_decode(field@)) == Err::<Seq<u8>, RouteParseErrorView>(
                e@,
            ),
        },
{
    match hex_str_to_ipv4(field) {
        Ok(a) => Ok(a),
        Err(e) => Err(RouteParseError::Convert(e)),
    }
}

impl Ipv4RouteEntry {
    /// Parses one line of the IPv4 table: at least eleven whitespace-separated
    /// fields, of which the first eleven are decoded; the first field that
    /// fails decides the error.
    pub fn parse_line(line: &str) -> (r: Result<Ipv4RouteEntry, RouteParseError>)
        ensures
            match r {
                Ok(e) => ipv4_entry_decode(words(line@)) == Ok::<
                    Ipv4RouteEntryView,
                    RouteParseErrorView,
                >(e@),
                Err(e) => ipv4_entry_decode(words(line@)) == Err::<
                    Ipv4RouteEntryView,
                    RouteParseErrorView,
                >(e@),
            },
    {
        let fields = split_fields(line);
        let ghost w = words(line@);
        if fields.len() < IPV4_FIELD_COUNT {
            return Err(
                RouteParseError::InvalidFieldCount {
                    expected: IPV4_FIELD_COUNT,
                    found: fields.len(),
                },
            );
        }
        assert(fields@[1]@ == w[1] && fields@[2]@ == w[2] && fields@[3]@ == w[3]);
        assert(fields@[4]@ == w[4] && fields@[5]@ == w[5] && fields@[6]@ == w[6]);
        assert(fields@[7]@ == w[7] && fields@[8]@ == w[8] && fields@[9]@ == w[9]);
        assert(fields@[10]@ == w[10]);
        let dest = match address_field(fields[1]) {
            Ok(v) => v,
            Err(e) => return Err(e),
        };
        let gateway = match address_field(fields[2]) {
            Ok(v) => v,
            Err(e) => return Err(e),
        };
        let flags = match u16_field(fields[3]) {
            Ok(v) => v,
            Err(e) => return Err(e),
        };
        let ref_count = match byte_field(fields[4]) {
            Ok(v) => v,
            Err(e) => return Err(e),
        };
        let use_count = match byte_field(fields[5]) {
            Ok(v) => v,
            Err(e) => return Err(e),
        };
        let metric = match byte_field(fields[6]) {
            Ok(v) => v,
            Err(e) => return Err(e),
        };
        let mask = match address_field(fields[7]) {
            Ok(v) => v,
            Err(e) => return Err(e),
        };
        let mtu = match byte_field(fields[8]) {
            Ok(v) => v,
            Err(e) => return Err(e),
        };
        let window = match byte_field(fields[9]) {
            Ok(v) => v,
            Err(e) => return Err(e),
        };
        let irtt = match byte_field(fields[10]) {
            Ok(v) => v,
            Err(e) => return Err(e),
        };
        let name = fields[0].to_owned();
        assert(name@ == w[0]);
        Ok(
            Ipv4RouteEntry {
                name,
                dest,
                gateway,
                flags: Ipv4RouteFlags::from_bits_retain(flags),
                ref_count,
                use_count,
                metric,
                mask,
                mtu,
                window,
                irtt,
            },
        )
    }
}

impl std::str::FromStr for Ipv4RouteEntry {
    type Err = RouteParseError;

    fn from_str(line: &str) -> (r: Result<Self, Self::Err>)
        ensures
            ipv4_item_agrees(r, line@),
    {
        Ipv4RouteEntry::parse_line(line)
    }
}

/// The decoding state of the IPv4 route table over a line source: how many
/// header lines are still to be passed over, and whether the source has ended.
pub struct Ipv4RouteTable {
    pub header_lines: usize,
    pub exhausted: bool,
}

/// `item` is what parsing `line` gives.
pub open spec fn ipv4_item_agrees(item: Result<Ipv4RouteEntry, RouteParseError>, line: Seq<char>) -> bool {
    match item {
        Ok(e) => ipv4_entry_decode(words(line)) == Ok::<Ipv4RouteEntryView, RouteParseErrorView>(e@),
        Err(e) => ipv4_entry_decode(words(line)) == Err::<Ipv4RouteEntryView, RouteParseErrorView>(e@),
    }
}

impl Ipv4RouteTable {
    /// A table that passes over the first `header_lines` lines of its source.
    pub fn new(header_lines: usize) -> (r: Self)
        ensures
            r.header_lines == header_lines,
            !r.exhausted,
    {
        Ipv4RouteTable { header_lines, exhausted: false }
    }

    /// Takes the next read from the line source (`None` at its end) and says
    /// what it gives: a header line is passed over, a line is parsed, a
    /// failed read is an item of its own (also where a header line was
    /// due, which then stays due), and the end of the source ends the table
    /// for good.
    pub fn next_line(&mut self, read: Option<Result<String, std::io::Error>>) -> (r: TableStep<
        Ipv4RouteEntry,
    >)
        ensures
            old(self).exhausted || read is None ==> r is Exhausted && final(self).exhausted
                && final(self).header_lines == old(self).header_lines,
            !old(self).exhausted && read is Some && read->0 is Ok && old(self).header_lines > 0
                ==> r is Skipped
                && !final(self).exhausted && final(self).header_lines == old(self).header_lines
                - 1,
            !old(self).exhausted && read is Some && read->0 is Ok && old(self).header_lines
                == 0
                ==> *final(self) == *old(self) && r is Item && ipv4_item_agrees(r->Item_0, read->0->Ok_0@),
            !old(self).exhausted && read is Some && read->0 is Err ==> *final(self) == *old(self)
                && r is Item && r->Item_0 is Err && r->Item_0->Err_0 is Io,
    {
        if self.exhausted {
            return TableStep::Exhausted;
        }
        match read {
            None => {
                self.exhausted = true;
                TableStep::Exhausted
            },
            Some(Err(e)) => TableStep::Item(Err(RouteParseError::Io(e))),
            Some(Ok(line)) => {
                if self.header_lines > 0 {
                    self.header_lines = self.header_lines - 1;
                    TableStep::Skipped
                } else {
                    TableStep::Item(Ipv4RouteEntry::parse_line(line.as_str()))
                }
            },
        }
    }

    /// Runs the table over a source that holds `lines` and then ends: one
    /// item for each line after the header lines still to be passed over.
    pub fn read_all(&mut self, lines: &[String]) -> (r: Vec<Result<Ipv4RouteEntry, RouteParseError>>)
        ensures
            final(self).exhausted,
            old(self).exhausted ==> r@.len() == 0 && final(self).header_lines == old(
                self,
            ).header_lines,
            !old(self).exhausted ==> {
                let skip = if old(self).header_lines < lines@.len() {
                    old(self).header_lines as int
                } else {
                    lines@.len() as int
                };
                &&& r@.len() == lines@.len() - skip
                &&& final(self).header_lines == old(self).header_lines - skip
                &&& forall|k: int|
                    0 <= k < r@.len() ==> ipv4_item_agrees(#[trigger] r@[k], lines@[k + skip]@)
            },
    {
        let mut items: Vec<Result<Ipv4RouteEntry, RouteParseError>> = Vec::new();
        if self.exhausted {
            return items;
        }
        let ghost h = self.header_lines;
        let mut i: usize = 0;
        while i < lines.len()
            invariant
                !self.exhausted,
                i <= lines@.len(),
                h == old(self).header_lines,
                !old(self).exhausted,
                i <= h ==> items@.len() == 0 && self.header_lines == h - i,
                i > h ==> items@.len() == i - h && self.header_lines == 0,
                forall|k: int|
                    0 <= k < items@.len() ==> ipv4_item_agrees(#[trigger] items@[k], lines@[k + h]@),
            decreases lines@.len() - i,
        {
            let step = self.next_line(Some(Ok(lines[i].clone())));
            match step {
                TableStep::Item(item) => {
                    items.push(item);
                },
                _ => {},
            }
            i += 1;
        }
        self.next_line(None);
        items
    }
}

} // verus!

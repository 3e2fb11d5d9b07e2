//! Hex/ASCII dump lines for packet capture diagnostics: every byte of a
//! buffer rendered as two hex digits in a spaced column, beside a printable
//! ASCII column, sixteen bytes per line.

use vstd::prelude::*;

verus! {

/// The ASCII code of the lowercase hex digit for a nibble value.
pub open spec fn spec_hex_digit(n: u8) -> u8 {
    if n < 10 {
        (48 + n) as u8
    } else {
        (87 + n) as u8
    }
}

fn hex_digit(n: u8) -> (r: u8)
    requires
        n < 16,
    ensures
        r == spec_hex_digit(n),
        r < 128,
{
    if n < 10 {
        48 + n
    } else {
        87 + n
    }
}

/// The three ASCII codes one byte contributes to the hex column: its two
/// hex digits followed by a space for the first eight bytes of a line, and
/// preceded by a space for the rest.
pub open spec fn spec_hex_cell(b: u8, leading: bool) -> Seq<u8> {
    if leading {
        seq![spec_hex_digit(b / 16), spec_hex_digit(b % 16), 32u8]
    } else {
        seq![32u8, spec_hex_digit(b / 16), spec_hex_digit(b % 16)]
    }
}

/// The hex column cells of the first `n` bytes, in order.
pub open spec fn spec_hex_cells(bytes: Seq<u8>, n: int) -> Seq<u8>
    decreases n,
{
    if n <= 0 {
        Seq::<u8>::empty()
    } else {
        spec_hex_cells(bytes, n - 1) + spec_hex_cell(bytes[n - 1], n - 1 < 8)
    }
}

/// The whole hex column of a line, as characters.
pub open spec fn spec_hex_text(bytes: Seq<u8>) -> Seq<char> {
    spec_hex_cells(bytes, bytes.len() as int).map_values(|b: u8| b as char)
}

/// The ASCII code a byte shows as in the ASCII column: itself when
/// printable, a dot otherwise.
pub open spec fn spec_ascii_byte(b: u8) -> u8 {
    if 32 <= b && b <= 126 {
        b
    } else {
        46
    }
}

/// The whole ASCII column of a line, as characters.
pub open spec fn spec_ascii_text(bytes: Seq<u8>) -> Seq<char> {
    bytes.map_values(|b: u8| spec_ascii_byte(b) as char)
}

/// Relies on `String::from_utf8`: ASCII bytes decode to exactly the
/// matching characters.
#[verifier::external_body]
fn ascii_string(bytes: Vec<u8>) -> (r: String)
    requires
        forall|j: int| 0 <= j < bytes@.len() ==> bytes@[j] < 128,
    ensures
        r@ == bytes@.map_values(|b: u8| b as char),
{
    String::from_utf8(bytes).unwrap_or_default()
}

/// One rendered line of a dump: an address label and the two columns for
/// up to sixteen bytes.
pub struct PCapLine {
    /// The address label of the line.
    pub address: String,
    /// The spaced hex column.
    pub hex: String,
    /// The printable ASCII column.
    pub ascii: String,
}

impl PCapLine {
    /// Renders the two columns for the given bytes under the given address
    /// label.
    pub fn new(address: String, bytes: &[u8]) -> (r: PCapLine)
        ensures
            r.address@ == address@,
            r.hex@ == spec_hex_text(bytes@),
            r.ascii@ == spec_ascii_text(bytes@),
    {
        let mut hex: Vec<u8> = Vec::new();
        let mut i: usize = 0;
        while i < bytes.len()
            invariant
                i <= bytes@.len(),
                hex@ == spec_hex_cells(bytes@, i as int),
                forall|j: int| 0 <= j < hex@.len() ==> hex@[j] < 128,
            decreases bytes@.len() - i,
        {
            let b = bytes[i];
            let hi = hex_digit(b / 16);
            let lo = hex_digit(b % 16);
            if i < 8 {
                hex.push(hi);
                hex.push(lo);
                hex.push(32);
            } else {
                hex.push(32);
                hex.push(hi);
                hex.push(lo);
            }
            proof {
                assert(hex@ =~= spec_hex_cells(bytes@, i + 1));
            }
            i = i + 1;
        }
        let mut ascii: Vec<u8> = Vec::new();
        let mut k: usize = 0;
        while k < bytes.len()
            invariant
                k <= bytes@.len(),
                ascii@.len() == k,
                forall|j: int| 0 <= j < k ==> ascii@[j] == spec_ascii_byte(bytes@[j]),
            decreases bytes@.len() - k,
        {
            let b = bytes[k];
            if 32 <= b && b <= 126 {
                ascii.push(b);
            } else {
                ascii.push(46);
            }
            k = k + 1;
        }
        let hex_string = ascii_string(hex);
        let ascii_string_col = ascii_string(ascii);
        proof {
            assert(ascii_string_col@ =~= spec_ascii_text(bytes@));
        }
        PCapLine { address, hex: hex_string, ascii: ascii_string_col }
    }
}

/// The ASCII codes of the eight lowercase hex digits of a 32-bit address.
pub open spec fn spec_hex_address(n: u32) -> Seq<u8> {
    seq![
        spec_hex_digit(((n / 0x10000000) % 16) as u8),
        spec_hex_digit(((n / 0x1000000) % 16) as u8),
        spec_hex_digit(((n / 0x100000) % 16) as u8),
        spec_hex_digit(((n / 0x10000) % 16) as u8),
        spec_hex_digit(((n / 0x1000) % 16) as u8),
        spec_hex_digit(((n / 0x100) % 16) as u8),
        spec_hex_digit(((n / 0x10) % 16) as u8),
        spec_hex_digit((n % 16) as u8),
    ]
}

/// The address label of a line, as characters.
pub open spec fn spec_address_text(n: u32) -> Seq<char> {
    spec_hex_address(n).map_values(|b: u8| b as char)
}

/// Renders a 32-bit value as its eight lowercase hex digits.
pub fn hex_address(n: u32) -> (r: String)
    ensures
        r@ == spec_address_text(n),
{
    let mut digits: Vec<u8> = Vec::new();
    digits.push(hex_digit(((n / 0x10000000) % 16) as u8));
    digits.push(hex_digit(((n / 0x1000000) % 16) as u8));
    digits.push(hex_digit(((n / 0x100000) % 16) as u8));
    digits.push(hex_digit(((n / 0x10000) % 16) as u8));
    digits.push(hex_digit(((n / 0x1000) % 16) as u8));
    digits.push(hex_digit(((n / 0x100) % 16) as u8));
    digits.push(hex_digit(((n / 0x10) % 16) as u8));
    digits.push(hex_digit((n % 16) as u8));
    proof {
        assert(digits@ =~= spec_hex_address(n));
    }
    ascii_string(digits)
}

/// A utility for formatting a byte buffer as a hex/ASCII dump, sixteen
/// bytes per line.
pub struct PCap;

impl PCap {
    /// Renders the buffer into dump lines: line `i` covers the bytes from
    /// offset `16 * i` to the next sixteen-byte boundary or the end, under
    /// the address label of its starting offset.  There are as many lines
    /// as sixteen-byte chunks, the last one possibly short.
    pub fn lines(data: &[u8]) -> (r: Vec<PCapLine>)
        requires
            data@.len() <= 0xffffffff,
        ensures
            data@.len() == 0 ==> r@.len() == 0,
            data@.len() > 0 ==> (r@.len() - 1) * 16 < data@.len() <= r@.len() * 16,
            forall|i: int|
                #![trigger r@[i]]
                0 <= i < r@.len() ==> {
                    let chunk = data@.subrange(
                        16 * i,
                        if 16 * i + 16 <= data@.len() {
                            16 * i + 16
                        } else {
                            data@.len() as int
                        },
                    );
                    &&& r@[i].address@ == spec_address_text((16 * i) as u32)
                    &&& r@[i].hex@ == spec_hex_text(chunk)
                    &&& r@[i].ascii@ == spec_ascii_text(chunk)
                },
    {
        let mut lines: Vec<PCapLine> = Vec::new();
        let mut offset: usize = 0;
        while offset < data.len()
            invariant
                data@.len() <= 0xffffffff,
                offset <= data@.len(),
                offset == lines@.len() * 16 || (offset == data@.len() && data@.len()
                    < lines@.len() * 16 <= data@.len() + 15),
                forall|i: int|
                    #![trigger lines@[i]]
                    0 <= i < lines@.len() ==> {
                        let chunk = data@.subrange(
                            16 * i,
                            if 16 * i + 16 <= data@.len() {
                                16 * i + 16
                            } else {
                                data@.len() as int
                            },
                        );
                        &&& lines@[i].address@ == spec_address_text((16 * i) as u32)
                        &&& lines@[i].hex@ == spec_hex_text(chunk)
                        &&& lines@[i].ascii@ == spec_ascii_text(chunk)
                    },
            decreases data@.len() - offset,
        {
            let remaining = data.len() - offset;
            let end = if remaining > 16 {
                offset + 16
            } else {
                data.len()
            };
            let address = hex_address(offset as u32);
            let line = PCapLine::new(address, &data[offset..end]);
            lines.push(line);
            offset = end;
        }
        lines
    }
}

} // verus!

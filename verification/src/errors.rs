//! Error kinds for the host driver, all fatal to a run, with their
//! human-readable messages.
//!
//! Offending values (a bad direction word, a bad control word) are carried in
//! the variant and rendered into the message as fixed-width hexadecimal by a
//! verified formatter.

use vstd::prelude::*;

verus! {

/// One hexadecimal digit character for a nibble value.
pub open spec fn spec_hex_digit(n: u8) -> char
    recommends
        n < 16,
{
    if n == 0 {
        '0'
    } else if n == 1 {
        '1'
    } else if n == 2 {
        '2'
    } else if n == 3 {
        '3'
    } else if n == 4 {
        '4'
    } else if n == 5 {
        '5'
    } else if n == 6 {
        '6'
    } else if n == 7 {
        '7'
    } else if n == 8 {
        '8'
    } else if n == 9 {
        '9'
    } else if n == 10 {
        'a'
    } else if n == 11 {
        'b'
    } else if n == 12 {
        'c'
    } else if n == 13 {
        'd'
    } else if n == 14 {
        'e'
    } else {
        'f'
    }
}

/// The eight hex digits of a 32-bit value, most significant nibble first.
pub open spec fn spec_hex32(v: u32) -> Seq<char> {
    seq![
        spec_hex_digit(((v >> 28) & 0xf) as u8),
        spec_hex_digit(((v >> 24) & 0xf) as u8),
        spec_hex_digit(((v >> 20) & 0xf) as u8),
        spec_hex_digit(((v >> 16) & 0xf) as u8),
        spec_hex_digit(((v >> 12) & 0xf) as u8),
        spec_hex_digit(((v >> 8) & 0xf) as u8),
        spec_hex_digit(((v >> 4) & 0xf) as u8),
        spec_hex_digit((v & 0xf) as u8),
    ]
}

fn hex_digit_str(n: u8) -> (s: &'static str)
    requires
        n < 16,
    ensures
        s@.len() == 1,
        s@[0] == spec_hex_digit(n),
{
    proof {
        reveal_strlit("0");
        reveal_strlit("1");
        reveal_strlit("2");
        reveal_strlit("3");
        reveal_strlit("4");
        reveal_strlit("5");
        reveal_strlit("6");
        reveal_strlit("7");
        reveal_strlit("8");
        reveal_strlit("9");
        reveal_strlit("a");
        reveal_strlit("b");
        reveal_strlit("c");
        reveal_strlit("d");
        reveal_strlit("e");
        reveal_strlit("f");
    }
    if n == 0 {
        "0"
    } else if n == 1 {
        "1"
    } else if n == 2 {
        "2"
    } else if n == 3 {
        "3"
    } else if n == 4 {
        "4"
    } else if n == 5 {
        "5"
    } else if n == 6 {
        "6"
    } else if n == 7 {
        "7"
    } else if n == 8 {
        "8"
    } else if n == 9 {
        "9"
    } else if n == 10 {
        "a"
    } else if n == 11 {
        "b"
    } else if n == 12 {
        "c"
    } else if n == 13 {
        "d"
    } else if n == 14 {
        "e"
    } else {
        "f"
    }
}

/// Render a 32-bit value as eight lower-case hex digits.
pub fn u32_hex(v: u32) -> (s: String)
    ensures
        s@ == spec_hex32(v),
{
    let mut s = String::new();
    assert((v >> 28) & 0xf < 16 && (v >> 24) & 0xf < 16 && (v >> 20) & 0xf < 16 && (v >> 16)
        & 0xf < 16 && (v >> 12) & 0xf < 16 && (v >> 8) & 0xf < 16 && (v >> 4) & 0xf < 16 && v
        & 0xf < 16) by (bit_vector);
    s.append(hex_digit_str(((v >> 28) & 0xf) as u8));
    s.append(hex_digit_str(((v >> 24) & 0xf) as u8));
    s.append(hex_digit_str(((v >> 20) & 0xf) as u8));
    s.append(hex_digit_str(((v >> 16) & 0xf) as u8));
    s.append(hex_digit_str(((v >> 12) & 0xf) as u8));
    s.append(hex_digit_str(((v >> 8) & 0xf) as u8));
    s.append(hex_digit_str(((v >> 4) & 0xf) as u8));
    s.append(hex_digit_str((v & 0xf) as u8));
    proof {
        assert(s@ =~= spec_hex32(v));
    }
    s
}

/// A defect in the target image: descriptor or symbols missing or malformed.
#[derive(Debug, Clone, Copy, PartialEq, Eq, Structural)]
pub enum ImageError {
    /// The image bytes could not be parsed at all.
    Malformed,
    /// The descriptor section is absent.
    FlashTableMissing,
    /// The descriptor section is not exactly twelve bytes.
    FlashTableWrongSize,
    /// The descriptor's direction word is neither 1 nor 2.
    InvalidDirection(u32),
    /// The log-channel anchor symbol is absent.
    RttSymbolMissing,
    /// The staging-buffer symbol is absent.
    BufferSymbolMissing,
    /// The control-word symbol is absent.
    ControlSymbolMissing,
    /// The vector table section is absent.
    VectorTableMissing,
    /// The flash size is not a positive multiple of the buffer size.
    BadGeometry,
    /// The control word and the staging buffer share an address.
    BadLayout,
}

/// A contradiction between the image's direction and the command line.
#[derive(Debug, Clone, Copy, PartialEq, Eq, Structural)]
pub enum UsageError {
    /// A data file was given, but the image dumps flash to the host.
    DataWithDump,
    /// No data file was given, but the image loads flash from the host.
    DataMissingForLoad,
    /// The log filter environment variable is not valid UTF-8.
    LogFilterNotUnicode,
}

/// A failure while driving chunks across the staging buffer.
#[derive(Debug, Clone, Copy, PartialEq, Eq, Structural)]
pub enum TransferError {
    /// A control-word poll exceeded its deadline.
    TimedOut,
    /// The control word held a value outside {0, 1}.
    BadControl(u32),
    /// An input chunk was smaller than the staging buffer.
    ShortRead,
}

/// The message text of an image error.
pub open spec fn spec_image_error_msg(e: ImageError) -> Seq<char> {
    match e {
        ImageError::Malformed => "failed to parse ELF image"@,
        ImageError::FlashTableMissing => "flash table section not found"@,
        ImageError::FlashTableWrongSize => "flash table is wrong size"@,
        ImageError::InvalidDirection(v) => "Invalid flash table direction 0x"@ + spec_hex32(v),
        ImageError::RttSymbolMissing => "RTT symbol not found"@,
        ImageError::BufferSymbolMissing => "Flash buffer symbol not found"@,
        ImageError::ControlSymbolMissing => "Flash control symbol not found"@,
        ImageError::VectorTableMissing => "vector table section not found"@,
        ImageError::BadGeometry => "flash size is not a positive multiple of buffer size"@,
        ImageError::BadLayout => "control word and staging buffer share an address"@,
    }
}

impl ImageError {
    /// The message a run reports for this error.
    pub fn message(&self) -> (s: String)
        ensures
            s@ == spec_image_error_msg(*self),
    {
        match self {
            ImageError::Malformed => String::from_str("failed to parse ELF image"),
            ImageError::FlashTableMissing => String::from_str("flash table section not found"),
            ImageError::FlashTableWrongSize => String::from_str("flash table is wrong size"),
            ImageError::InvalidDirection(v) => String::from_str(
                "Invalid flash table direction 0x",
            ).concat(u32_hex(*v).as_str()),
            ImageError::RttSymbolMissing => String::from_str("RTT symbol not found"),
            ImageError::BufferSymbolMissing => String::from_str("Flash buffer symbol not found"),
            ImageError::ControlSymbolMissing => String::from_str("Flash control symbol not found"),
            ImageError::VectorTableMissing => String::from_str("vector table section not found"),
            ImageError::BadGeometry => String::from_str(
                "flash size is not a positive multiple of buffer size",
            ),
            ImageError::BadLayout => String::from_str(
                "control word and staging buffer share an address",
            ),
        }
    }
}

/// The message text of a usage error.
pub open spec fn spec_usage_error_msg(e: UsageError) -> Seq<char> {
    match e {
        UsageError::DataWithDump => "`--data` is specified, but ELF file dumps data"@,
        UsageError::DataMissingForLoad => "`--data` not specified, but ELF file loads data"@,
        UsageError::LogFilterNotUnicode => "`RUST_LOG` is not unicode"@,
    }
}

impl UsageError {
    /// The message a run reports for this error.
    pub fn message(&self) -> (s: String)
        ensures
            s@ == spec_usage_error_msg(*self),
    {
        match self {
            UsageError::DataWithDump => String::from_str(
                "`--data` is specified, but ELF file dumps data",
            ),
            UsageError::DataMissingForLoad => String::from_str(
                "`--data` not specified, but ELF file loads data",
            ),
            UsageError::LogFilterNotUnicode => String::from_str("`RUST_LOG` is not unicode"),
        }
    }
}

/// The message text of a transfer error.
pub open spec fn spec_transfer_error_msg(e: TransferError) -> Seq<char> {
    match e {
        TransferError::TimedOut => "Time out"@,
        TransferError::BadControl(v) => "Invalid control word 0x"@ + spec_hex32(v),
        TransferError::ShortRead => "input chunk is smaller than the staging buffer"@,
    }
}

impl TransferError {
    /// The message a run reports for this error.
    pub fn message(&self) -> (s: String)
        ensures
            s@ == spec_transfer_error_msg(*self),
    {
        match self {
            TransferError::TimedOut => String::from_str("Time out"),
            TransferError::BadControl(v) => String::from_str("Invalid control word 0x").concat(
                u32_hex(*v).as_str(),
            ),
            TransferError::ShortRead => String::from_str(
                "input chunk is smaller than the staging buffer",
            ),
        }
    }
}

} // verus!

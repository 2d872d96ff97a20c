//! Reading a target image: the symbol table, the two named sections, and
//! the validation that turns them into transfer parameters.
//!
//! The ELF container itself is decoded by the `object` crate behind two
//! trusted wrappers; everything decided about the decoded values — which
//! symbols are required, how the descriptor is parsed, which error an image
//! is rejected with — is verified here.

use object::{Object, ObjectSection, ObjectSymbol};
use vstd::prelude::*;

use crate::descriptor::{parse_flash_table, spec_parse_flash_table, FlashTable};
use crate::errors::ImageError;

verus! {

/// The defined symbols of an image, each as its name and address, in the
/// image's symbol table order; `None` when the bytes are not a readable
/// object file. A function of the image bytes alone.
pub uninterp spec fn elf_symbols_of(data: Seq<u8>) -> Option<Seq<(Seq<char>, u64)>>;

/// The bytes of the named section of an image: `None` when the bytes are
/// not a readable object file, `Some(None)` when the image has no such
/// section. A function of the image bytes and the name alone.
pub uninterp spec fn elf_section_of(data: Seq<u8>, name: Seq<char>) -> Option<Option<Seq<u8>>>;

/// Relies on `object::File::parse` and `Object::symbols`: parsing and the
/// symbol table are deterministic in the image bytes. Each symbol is handed
/// out as its name (empty when unreadable) and address; `None` when the
/// image does not parse.
#[verifier::external_body]
fn elf_symbol_list(data: &Vec<u8>) -> (r: Option<Vec<(String, u64)>>)
    ensures
        r.deep_view() == elf_symbols_of(data@),
{
    let file = match object::File::parse(data.as_slice()) {
        Ok(file) => file,
        Err(_) => return None,
    };
    Some(file.symbols().map(|s| (s.name().unwrap_or("").to_string(), s.address())).collect())
}

/// Relies on `object::File::parse`, `Object::section_by_name` and
/// `ObjectSection::data`: a named section's bytes are deterministic in the
/// image bytes and the name. A section whose bytes cannot be read is
/// treated as absent.
#[verifier::external_body]
fn elf_section_data(data: &Vec<u8>, name: &str) -> (r: Option<Option<Vec<u8>>>)
    ensures
        r.deep_view() == elf_section_of(data@, name@),
{
    let file = match object::File::parse(data.as_slice()) {
        Ok(file) => file,
        Err(_) => return None,
    };
    let section = match file.section_by_name(name) {
        Some(section) => section,
        None => return Some(None),
    };
    match section.data() {
        Ok(bytes) => Some(Some(bytes.to_vec())),
        Err(_) => Some(None),
    }
}

/// The three RAM addresses an image must export by fixed symbol names.
#[derive(Debug, Clone, Copy, PartialEq, Eq, Structural)]
pub struct SymbolAddrs {
    /// Address of the log ring anchor (`_SEGGER_RTT`).
    pub rtt_addr: u64,
    /// Address of the staging buffer (`_RS_FLASH_BUFFER`).
    pub buffer_addr: u64,
    /// Address of the control word (`_RS_FLASH_CONTROL`).
    pub control_addr: u64,
}

/// The address of the last symbol with the given name, if any; the last
/// occurrence wins, as when assigning through the table in order.
pub open spec fn spec_find_symbol(syms: Seq<(Seq<char>, u64)>, name: Seq<char>) -> Option<u64>
    decreases syms.len(),
{
    if syms.len() == 0 {
        None
    } else if syms.last().0 == name {
        Some(syms.last().1)
    } else {
        spec_find_symbol(syms.drop_last(), name)
    }
}

/// What resolving the three required symbols yields: their addresses, or
/// the first missing one, checked in the order log anchor, staging buffer,
/// control word.
pub open spec fn spec_resolve_symbols(syms: Seq<(Seq<char>, u64)>) -> Result<
    SymbolAddrs,
    ImageError,
> {
    match spec_find_symbol(syms, "_SEGGER_RTT"@) {
        Option::None => Err(ImageError::RttSymbolMissing),
        Option::Some(rtt_addr) => match spec_find_symbol(syms, "_RS_FLASH_BUFFER"@) {
            Option::None => Err(ImageError::BufferSymbolMissing),
            Option::Some(buffer_addr) => match spec_find_symbol(syms, "_RS_FLASH_CONTROL"@) {
                Option::None => Err(ImageError::ControlSymbolMissing),
                Option::Some(control_addr) => Ok(
                    SymbolAddrs { rtt_addr, buffer_addr, control_addr },
                ),
            },
        },
    }
}

proof fn lemma_find_symbol_step(syms: Seq<(Seq<char>, u64)>, i: int, name: Seq<char>)
    requires
        0 <= i < syms.len(),
    ensures
        spec_find_symbol(syms.take(i + 1), name) == (if syms[i].0 == name {
            Some(syms[i].1)
        } else {
            spec_find_symbol(syms.take(i), name)
        }),
{
    assert(syms.take(i + 1).drop_last() =~= syms.take(i));
    assert(syms.take(i + 1).last() == syms[i]);
}

/// Resolve the three required symbols from an image's symbol table.
/// Missing any of them is a fatal image error, reported for the log
/// anchor first, then the staging buffer, then the control word.
pub fn resolve_symbols(symbols: &Vec<(String, u64)>) -> (r: Result<SymbolAddrs, ImageError>)
    ensures
        r == spec_resolve_symbols(symbols.deep_view()),
{
    let rtt_name = String::from_str("_SEGGER_RTT");
    let buffer_name = String::from_str("_RS_FLASH_BUFFER");
    let control_name = String::from_str("_RS_FLASH_CONTROL");
    let ghost all = symbols.deep_view();
    let mut rtt: Option<u64> = None;
    let mut buffer: Option<u64> = None;
    let mut control: Option<u64> = None;
    let mut i: usize = 0;
    while i < symbols.len()
        invariant
            0 <= i <= symbols.len(),
            all == symbols.deep_view(),
            all.len() == symbols.len(),
            rtt_name@ == "_SEGGER_RTT"@,
            buffer_name@ == "_RS_FLASH_BUFFER"@,
            control_name@ == "_RS_FLASH_CONTROL"@,
            rtt == spec_find_symbol(all.take(i as int), "_SEGGER_RTT"@),
            buffer == spec_find_symbol(all.take(i as int), "_RS_FLASH_BUFFER"@),
            control == spec_find_symbol(all.take(i as int), "_RS_FLASH_CONTROL"@),
        decreases symbols.len() - i,
    {
        proof {
            reveal_strlit("_SEGGER_RTT");
            reveal_strlit("_RS_FLASH_BUFFER");
            reveal_strlit("_RS_FLASH_CONTROL");
            assert("_SEGGER_RTT"@.len() == 11);
            assert("_RS_FLASH_BUFFER"@.len() == 16);
            assert("_RS_FLASH_CONTROL"@.len() == 17);
            assert(all[i as int] == (symbols@[i as int].0@, symbols@[i as int].1));
            lemma_find_symbol_step(all, i as int, "_SEGGER_RTT"@);
            lemma_find_symbol_step(all, i as int, "_RS_FLASH_BUFFER"@);
            lemma_find_symbol_step(all, i as int, "_RS_FLASH_CONTROL"@);
        }
        let pair = &symbols[i];
        if pair.0 == rtt_name {
            rtt = Some(pair.1);
        } else if pair.0 == buffer_name {
            buffer = Some(pair.1);
        } else if pair.0 == control_name {
            control = Some(pair.1);
        }
        i = i + 1;
    }
    proof {
        assert(all.take(symbols.len() as int) =~= all);
    }
    let rtt_addr = match rtt {
        Some(addr) => addr,
        None => {
            return Err(ImageError::RttSymbolMissing);
        },
    };
    let buffer_addr = match buffer {
        Some(addr) => addr,
        None => {
            return Err(ImageError::BufferSymbolMissing);
        },
    };
    let control_addr = match control {
        Some(addr) => addr,
        None => {
            return Err(ImageError::ControlSymbolMissing);
        },
    };
    Ok(SymbolAddrs { rtt_addr, buffer_addr, control_addr })
}

/// Everything the host needs from a target image before bring-up.
#[derive(Debug, Clone, Copy, PartialEq, Eq, Structural)]
pub struct ImageInfo {
    /// The parsed transfer parameters.
    pub table: FlashTable,
    /// Address of the log ring anchor.
    pub rtt_addr: u64,
}

/// What inspecting an image yields: the transfer parameters and the log
/// anchor address, or the error the image is rejected with.
pub open spec fn spec_inspect_image(data: Seq<u8>) -> Result<ImageInfo, ImageError> {
    match elf_symbols_of(data) {
        Option::None => Err(ImageError::Malformed),
        Option::Some(syms) => match spec_resolve_symbols(syms) {
            Err(e) => Err(e),
            Ok(addrs) => match elf_section_of(data, ".vector_table"@) {
                Option::None => Err(ImageError::Malformed),
                Option::Some(Option::None) => Err(ImageError::VectorTableMissing),
                Option::Some(Option::Some(_)) => match elf_section_of(data, ".rs-flash"@) {
                    Option::None => Err(ImageError::Malformed),
                    Option::Some(Option::None) => Err(ImageError::FlashTableMissing),
                    Option::Some(Option::Some(section)) => match spec_parse_flash_table(
                        section,
                        addrs.buffer_addr,
                        addrs.control_addr,
                    ) {
                        Err(e) => Err(e),
                        Ok(table) => Ok(ImageInfo { table, rtt_addr: addrs.rtt_addr }),
                    },
                },
            },
        },
    }
}

/// Inspect a target image: resolve the three required symbols, require the
/// vector table section, and parse the descriptor section into transfer
/// parameters.
pub fn inspect_image(data: &Vec<u8>) -> (r: Result<ImageInfo, ImageError>)
    ensures
        r == spec_inspect_image(data@),
{
    let symbols = match elf_symbol_list(data) {
        Some(symbols) => symbols,
        None => {
            return Err(ImageError::Malformed);
        },
    };
    let addrs = match resolve_symbols(&symbols) {
        Ok(addrs) => addrs,
        Err(e) => {
            return Err(e);
        },
    };
    match elf_section_data(data, ".vector_table") {
        None => {
            return Err(ImageError::Malformed);
        },
        Some(None) => {
            return Err(ImageError::VectorTableMissing);
        },
        Some(Some(_)) => {},
    }
    let section = match elf_section_data(data, ".rs-flash") {
        None => {
            return Err(ImageError::Malformed);
        },
        Some(None) => {
            return Err(ImageError::FlashTableMissing);
        },
        Some(Some(section)) => section,
    };
    proof {
        assert(section.deep_view() =~= section@);
    }
    match parse_flash_table(section.as_slice(), addrs.buffer_addr, addrs.control_addr) {
        Ok(table) => Ok(ImageInfo { table, rtt_addr: addrs.rtt_addr }),
        Err(e) => Err(e),
    }
}

} // verus!

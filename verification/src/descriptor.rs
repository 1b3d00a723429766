//! The 64-bit translation descriptors of the 4 KiB granule: the table
//! descriptor of levels 0 to 2 and the page descriptor of level 3.
//!
//! A table descriptor:
//!
//! | bits    | field                                              |
//! |---------|----------------------------------------------------|
//! | 1..=0   | type                                               |
//! | 11..=2  | ignored                                            |
//! | 47..=12 | address of the next-level table, shifted right 12  |
//! | 51..=48 | reserved, zero                                     |
//! | 58..=52 | ignored                                            |
//! | 63..=59 | limits on the access that the tables below grant   |
//!
//! A page descriptor:
//!
//! | bits    | field                                              |
//! |---------|----------------------------------------------------|
//! | 1..=0   | type                                               |
//! | 11..=2  | lower attributes                                   |
//! | 47..=12 | address of the mapped frame, shifted right 12      |
//! | 50..=48 | reserved, zero                                     |
//! | 63..=51 | upper attributes                                   |
use crate::bits::{bits_of, get_bits, set_bits, with_bits};
use crate::uart::{hex_text, text_bytes, UART};
use vstd::prelude::*;

verus! {

/// Type field of a descriptor that points to a next-level table.
pub const TABLE: u8 = 0b11;

/// Type field of a descriptor that maps a 4 KiB page.
pub const PAGE: u8 = 0b11;

/// Type field of a descriptor that maps a block.
pub const BLOCK: u8 = 0b01;

/// Bits 47..=12 of a word: where both descriptor forms keep their address.
pub const ADDRESS_BITS: u64 = 0x0000_ffff_ffff_f000;

/// The bits that an encoded table descriptor can have set: type and address.
pub const TABLE_DESCRIPTOR_BITS: u64 = 0x0000_ffff_ffff_f003;

/// The bits that an encoded page descriptor can have set: type, attribute
/// byte and address.
pub const PAGE_DESCRIPTOR_BITS: u64 = 0x0000_ffff_ffff_fff3;

/// The two values of the type field that mark a descriptor as valid. A table
/// and a page share one value: the level tells them apart.
#[derive(Clone, Copy, Debug, PartialEq, Eq, Structural)]
pub enum DescriptorType {
    ONE,
    THREE,
}

impl DescriptorType {
    pub const BLOCK: DescriptorType = DescriptorType::ONE;

    pub const TABLE: DescriptorType = DescriptorType::THREE;

    pub const PAGE: DescriptorType = DescriptorType::THREE;

    /// The two bits that stand for this type in a descriptor.
    pub open spec fn spec_bits(self) -> u8 {
        match self {
            DescriptorType::ONE => 0b01,
            DescriptorType::THREE => 0b11,
        }
    }

    #[verifier::when_used_as_spec(spec_bits)]
    pub fn bits(self) -> (tag: u8)
        ensures
            tag == self.spec_bits(),
    {
        match self {
            DescriptorType::ONE => 0b01,
            DescriptorType::THREE => 0b11,
        }
    }
}

/// Whether `addr` is a multiple of 4096 that bits 47..=12 can hold.
pub open spec fn is_page_address(addr: u64) -> bool {
    addr & ADDRESS_BITS == addr
}

proof fn lemma_type_field(word: u64, value: u64)
    by (bit_vector)
    ensures
        bits_of(with_bits(word, 1, 0, value), 1, 0) == value & 3,
        bits_of(word, 1, 0) <= 3,
        with_bits(word, 1, 0, value) & !3u64 == word & !3u64,
        bits_of(with_bits(word, 1, 0, value), 47, 12) == bits_of(word, 47, 12),
        bits_of(with_bits(word, 1, 0, value), 11, 2) == bits_of(word, 11, 2),
        bits_of(with_bits(word, 1, 0, value), 51, 48) == bits_of(word, 51, 48),
        bits_of(with_bits(word, 1, 0, value), 50, 48) == bits_of(word, 50, 48),
{
}

proof fn lemma_address_field(word: u64, value: u64)
    by (bit_vector)
    ensures
        bits_of(with_bits(word, 47, 12, value), 47, 12) == value & 0xf_ffff_ffff,
        bits_of(word, 47, 12) <= 0xf_ffff_ffff,
        bits_of(word, 47, 12) << 12 == word & 0x0000_ffff_ffff_f000,
        with_bits(word, 47, 12, value) & !0x0000_ffff_ffff_f000u64 == word
            & !0x0000_ffff_ffff_f000u64,
        bits_of(with_bits(word, 47, 12, value), 1, 0) == bits_of(word, 1, 0),
        bits_of(with_bits(word, 47, 12, value), 11, 2) == bits_of(word, 11, 2),
        bits_of(with_bits(word, 47, 12, value), 51, 48) == bits_of(word, 51, 48),
        bits_of(with_bits(word, 47, 12, value), 50, 48) == bits_of(word, 50, 48),
{
}

/// Descriptor of levels 0 to 2 that points to the table of the next level.
#[derive(Clone, Copy)]
pub struct descriptor_table_lvl012(pub u64);

impl descriptor_table_lvl012 {
    /// The type field, bits 1..=0.
    pub open spec fn spec_desc_type(&self) -> u8 {
        bits_of(self.0, 1, 0) as u8
    }

    /// The address field, bits 47..=12: the next table's address shifted
    /// right by 12.
    pub open spec fn spec_next_level_table_addr(&self) -> u64 {
        bits_of(self.0, 47, 12)
    }

    /// The reserved bits 51..=48 are zero.
    pub open spec fn wf(&self) -> bool {
        bits_of(self.0, 51, 48) == 0
    }

    /// The all-zero descriptor, which is invalid to the table walk.
    pub fn new() -> (d: Self)
        ensures
            d.0 == 0,
            d.wf(),
    {
        proof {
            assert(bits_of(0u64, 51, 48) == 0) by (bit_vector);
        }
        descriptor_table_lvl012(0)
    }

    #[verifier::when_used_as_spec(spec_desc_type)]
    pub fn desc_type(&self) -> (t: u8)
        ensures
            t == self.spec_desc_type(),
            t == bits_of(self.0, 1, 0),
            t <= 3,
    {
        proof {
            lemma_type_field(self.0, 0);
        }
        get_bits(self.0, 1, 0) as u8
    }

    #[verifier::when_used_as_spec(spec_next_level_table_addr)]
    pub fn next_level_table_addr(&self) -> (field: u64)
        ensures
            field == self.spec_next_level_table_addr(),
            field <= 0xf_ffff_ffff,
            field << 12 == self.0 & ADDRESS_BITS,
    {
        proof {
            lemma_address_field(self.0, 0);
        }
        get_bits(self.0, 47, 12)
    }

    /// The report of this descriptor for the diagnostic line: its name, its
    /// type, the address of the next-level table and the raw word.
    pub open spec fn dump_text(&self) -> Seq<u8> {
        text_bytes("descriptor_table_lvl012"@) + text_bytes("\nType: "@) + hex_text(
            self.spec_desc_type() as u64,
            8,
        ) + text_bytes("\nNext level table address: "@) + hex_text(self.0 & ADDRESS_BITS, 16)
            + text_bytes("\nRaw: "@) + hex_text(self.0, 16) + text_bytes("\n"@)
    }

    /// The bytes to transmit to report this descriptor.
    pub fn dump_descriptor(&self) -> (out: Vec<u8>)
        ensures
            out@ == self.dump_text(),
    {
        let uart = UART;
        let mut out: Vec<u8> = uart.puts("descriptor_table_lvl012");
        let mut part: Vec<u8> = uart.puts("\nType: ");
        out.append(&mut part);
        part = uart.putx32(self.desc_type() as u32);
        out.append(&mut part);
        part = uart.puts("\nNext level table address: ");
        out.append(&mut part);
        part = uart.putx64(self.next_level_table_addr() << 12);
        out.append(&mut part);
        part = uart.puts("\nRaw: ");
        out.append(&mut part);
        part = uart.putx64(self.0);
        out.append(&mut part);
        part = uart.puts("\n");
        out.append(&mut part);
        out
    }

    /// Sets the type field to the low two bits of `t`. No other bit changes.
    pub fn set_type(&mut self, t: u8)
        ensures
            final(self).0 == with_bits(old(self).0, 1, 0, t as u64),
            final(self).spec_desc_type() == t & 3,
            final(self).0 & !3u64 == old(self).0 & !3u64,
            final(self).spec_next_level_table_addr() == old(self).spec_next_level_table_addr(),
            final(self).wf() == old(self).wf(),
    {
        proof {
            lemma_type_field(self.0, t as u64);
            assert((t as u64 & 3) as u8 == t & 3) by (bit_vector);
        }
        self.0 = set_bits(self.0, 1, 0, t as u64);
    }

    /// Stores `addr` in the address field, shifted right by 12. The low 12
    /// bits of `addr` and its bits above 47 are dropped. No other bit of the
    /// descriptor changes.
    pub fn set_next_level_table_addr(&mut self, addr: u64)
        ensures
            final(self).0 == with_bits(old(self).0, 47, 12, addr >> 12),
            final(self).spec_next_level_table_addr() == (addr >> 12) & 0xf_ffff_ffff,
            final(self).0 & ADDRESS_BITS == addr & ADDRESS_BITS,
            final(self).0 & !ADDRESS_BITS == old(self).0 & !ADDRESS_BITS,
            final(self).spec_desc_type() == old(self).spec_desc_type(),
            final(self).wf() == old(self).wf(),
    {
        proof {
            lemma_address_field(self.0, addr >> 12);
            lemma_address_field(with_bits(self.0, 47, 12, addr >> 12), 0);
            assert(((addr >> 12) & 0xf_ffff_ffff) << 12 == addr & 0x0000_ffff_ffff_f000)
                by (bit_vector);
        }
        self.0 = set_bits(self.0, 47, 12, addr >> 12);
    }
}

proof fn lemma_attribute_field(word: u64, value: u64, attrs: u8)
    by (bit_vector)
    ensures
        bits_of(with_bits(word, 11, 2, value), 11, 2) == value & 0x3ff,
        bits_of(word, 11, 2) <= 0x3ff,
        bits_of(word, 11, 4) <= 0xff,
        bits_of(word, 11, 4) == bits_of(word, 11, 2) >> 2,
        with_bits(word, 11, 2, value) & !0xffcu64 == word & !0xffcu64,
        bits_of(with_bits(word, 11, 2, value), 1, 0) == bits_of(word, 1, 0),
        bits_of(with_bits(word, 11, 2, value), 47, 12) == bits_of(word, 47, 12),
        bits_of(with_bits(word, 11, 2, value), 50, 48) == bits_of(word, 50, 48),
        ((attrs as u64) << 2) & 0x3ff == (attrs as u64) << 2,
        bits_of(with_bits(word, 11, 2, (attrs as u64) << 2), 11, 4) == attrs as u64,
        (attrs as u64) << 2 <= 0x3fc,
{
}

/// Descriptor of level 3 that maps one 4 KiB page.
#[derive(Clone, Copy)]
pub struct descriptor_page_4k_lvl3(pub u64);

impl descriptor_page_4k_lvl3 {
    /// The type field, bits 1..=0.
    pub open spec fn spec_desc_type(&self) -> u8 {
        bits_of(self.0, 1, 0) as u8
    }

    /// The lower attribute field, bits 11..=2.
    pub open spec fn spec_lower_attrs(&self) -> u16 {
        bits_of(self.0, 11, 2) as u16
    }

    /// The attribute byte, bits 11..=4: the lower attribute field without
    /// its two low bits.
    pub open spec fn spec_attribute_byte(&self) -> u8 {
        (self.spec_lower_attrs() >> 2) as u8
    }

    /// The address field, bits 47..=12: the output address shifted right by
    /// 12.
    pub open spec fn spec_output_addr(&self) -> u64 {
        bits_of(self.0, 47, 12)
    }

    /// The reserved bits 50..=48 are zero.
    pub open spec fn wf(&self) -> bool {
        bits_of(self.0, 50, 48) == 0
    }

    /// The all-zero descriptor, which is invalid to the table walk.
    pub fn new() -> (d: Self)
        ensures
            d.0 == 0,
            d.wf(),
    {
        proof {
            assert(bits_of(0u64, 50, 48) == 0) by (bit_vector);
        }
        descriptor_page_4k_lvl3(0)
    }

    #[verifier::when_used_as_spec(spec_desc_type)]
    pub fn desc_type(&self) -> (t: u8)
        ensures
            t == self.spec_desc_type(),
            t == bits_of(self.0, 1, 0),
            t <= 3,
    {
        proof {
            lemma_type_field(self.0, 0);
        }
        get_bits(self.0, 1, 0) as u8
    }

    #[verifier::when_used_as_spec(spec_lower_attrs)]
    pub fn lower_attrs(&self) -> (field: u16)
        ensures
            field == self.spec_lower_attrs(),
            field <= 0x3ff,
    {
        proof {
            lemma_attribute_field(self.0, 0, 0);
        }
        get_bits(self.0, 11, 2) as u16
    }

    #[verifier::when_used_as_spec(spec_output_addr)]
    pub fn output_addr(&self) -> (field: u64)
        ensures
            field == self.spec_output_addr(),
            field <= 0xf_ffff_ffff,
            field << 12 == self.0 & ADDRESS_BITS,
    {
        proof {
            lemma_address_field(self.0, 0);
        }
        get_bits(self.0, 47, 12)
    }

    /// The report of this descriptor for the diagnostic line: its name, its
    /// type, the low 32 bits of the output address, the lower attribute
    /// field in place and the raw word.
    pub open spec fn dump_text(&self) -> Seq<u8> {
        text_bytes("descriptor_page_4k_lvl3"@) + text_bytes("\nType: "@) + hex_text(
            self.spec_desc_type() as u64,
            8,
        ) + text_bytes("\nOutput address: "@) + hex_text(self.0 & 0xffff_f000, 8)
            + text_bytes("\nLower attributes: "@) + hex_text(
            (self.spec_lower_attrs() as u64) << 2,
            8,
        ) + text_bytes("\nRaw: "@) + hex_text(self.0, 16) + text_bytes("\n"@)
    }

    /// The bytes to transmit to report this descriptor.
    pub fn dump_descriptor(&self) -> (out: Vec<u8>)
        ensures
            out@ == self.dump_text(),
    {
        let uart = UART;
        let mut out: Vec<u8> = uart.puts("descriptor_page_4k_lvl3");
        let mut part: Vec<u8> = uart.puts("\nType: ");
        out.append(&mut part);
        part = uart.putx32(self.desc_type() as u32);
        out.append(&mut part);
        part = uart.puts("\nOutput address: ");
        out.append(&mut part);
        let address: u64 = (self.output_addr() << 12) & 0xffff_ffff;
        proof {
            let word = self.0;
            assert((word & 0x0000_ffff_ffff_f000) & 0xffff_ffff == word & 0xffff_f000
                && word & 0xffff_f000 <= 0xffff_ffff) by (bit_vector);
        }
        part = uart.putx32(address as u32);
        out.append(&mut part);
        part = uart.puts("\nLower attributes: ");
        out.append(&mut part);
        let attrs: u32 = self.lower_attrs() as u32;
        proof {
            let field = self.spec_lower_attrs();
            assert(((field as u32) << 2) as u64 == (field as u64) << 2) by (bit_vector)
                requires
                    field <= 0x3ff,
            ;
        }
        part = uart.putx32(attrs << 2);
        out.append(&mut part);
        part = uart.puts("\nRaw: ");
        out.append(&mut part);
        part = uart.putx64(self.0);
        out.append(&mut part);
        part = uart.puts("\n");
        out.append(&mut part);
        out
    }

    /// Sets the type field to the low two bits of `t`. No other bit changes.
    pub fn set_type(&mut self, t: u8)
        ensures
            final(self).0 == with_bits(old(self).0, 1, 0, t as u64),
            final(self).spec_desc_type() == t & 3,
            final(self).0 & !3u64 == old(self).0 & !3u64,
            final(self).spec_lower_attrs() == old(self).spec_lower_attrs(),
            final(self).spec_output_addr() == old(self).spec_output_addr(),
            final(self).wf() == old(self).wf(),
    {
        proof {
            lemma_type_field(self.0, t as u64);
            assert((t as u64 & 3) as u8 == t & 3) by (bit_vector);
        }
        self.0 = set_bits(self.0, 1, 0, t as u64);
    }

    /// Stores `addr` in the address field, shifted right by 12. The low 12
    /// bits of `addr` are dropped. No other bit of the descriptor changes.
    pub fn set_output_addr(&mut self, addr: u32)
        ensures
            final(self).0 == with_bits(old(self).0, 47, 12, (addr >> 12) as u64),
            final(self).spec_output_addr() == addr >> 12,
            final(self).0 & ADDRESS_BITS == addr as u64 & ADDRESS_BITS,
            final(self).0 & !ADDRESS_BITS == old(self).0 & !ADDRESS_BITS,
            final(self).spec_desc_type() == old(self).spec_desc_type(),
            final(self).spec_lower_attrs() == old(self).spec_lower_attrs(),
            final(self).wf() == old(self).wf(),
    {
        let field: u64 = (addr >> 12) as u64;
        proof {
            lemma_address_field(self.0, field);
            lemma_address_field(with_bits(self.0, 47, 12, field), 0);
            assert(((addr >> 12) as u64) & 0xf_ffff_ffff == (addr >> 12) as u64) by (bit_vector);
            assert(((addr >> 12) as u64) << 12 == addr as u64 & 0x0000_ffff_ffff_f000)
                by (bit_vector);
        }
        self.0 = set_bits(self.0, 47, 12, field);
    }

    /// Stores the attribute byte in bits 11..=4 and clears bits 3..=2: the
    /// field takes `attrs` shifted left by 2. No other bit of the descriptor
    /// changes.
    pub fn set_lower_attrs(&mut self, attrs: u8)
        ensures
            final(self).0 == with_bits(old(self).0, 11, 2, (attrs as u64) << 2),
            final(self).spec_lower_attrs() == (attrs as u16) << 2,
            final(self).spec_attribute_byte() == attrs,
            final(self).0 & !0xffcu64 == old(self).0 & !0xffcu64,
            final(self).spec_desc_type() == old(self).spec_desc_type(),
            final(self).spec_output_addr() == old(self).spec_output_addr(),
            final(self).wf() == old(self).wf(),
    {
        let field: u16 = (attrs as u16) << 2;
        proof {
            lemma_attribute_field(self.0, (attrs as u64) << 2, attrs);
            assert(((attrs as u16) << 2) as u64 == (attrs as u64) << 2) by (bit_vector);
            assert((((attrs as u16) << 2) >> 2) as u8 == attrs) by (bit_vector);
        }
        self.0 = set_bits(self.0, 11, 2, field as u64);
    }
}

/// What a raw descriptor says, read for the level of the table it stands in.
#[derive(Clone, Copy, Debug, PartialEq, Eq, Structural)]
pub enum TranslationDescriptor {
    /// Read at levels 0 to 2.
    TableDescriptor {
        /// The type field.
        tag: u8,
        /// Address of the next-level table: the address field shifted left
        /// by 12.
        next_level_base: u64,
        /// Bits 63..=59: the limits on the access that the tables below
        /// grant.
        table_attrs: u8,
    },
    /// Read at level 3.
    PageDescriptor {
        /// The type field.
        tag: u8,
        /// Address of the mapped frame: the address field shifted left by
        /// 12.
        output_frame: u64,
        /// The attribute byte, bits 11..=4.
        lower_attrs: u8,
        /// Bits 63..=51.
        upper_attrs: u16,
    },
}

/// The table descriptor for a next-level table at `next_level_base`: the
/// address bits 47..=12 in place, type TABLE, every other bit zero.
pub open spec fn encode_table_spec(next_level_base: u64) -> u64 {
    (next_level_base & ADDRESS_BITS) | 0b11
}

/// The page descriptor for the frame at `output_frame`: the address bits
/// 47..=12 in place, the attribute byte in bits 11..=4, type PAGE, every
/// other bit zero.
pub open spec fn encode_page_spec(output_frame: u64, lower_attrs: u8) -> u64 {
    (output_frame & ADDRESS_BITS) | ((lower_attrs as u64) << 4) | 0b11
}

/// The fields of `raw`, read as a page descriptor at level 3 and as a table
/// descriptor at every other level.
pub open spec fn decode_spec(raw: u64, level: u8) -> TranslationDescriptor {
    if level == 3 {
        TranslationDescriptor::PageDescriptor {
            tag: bits_of(raw, 1, 0) as u8,
            output_frame: raw & ADDRESS_BITS,
            lower_attrs: bits_of(raw, 11, 4) as u8,
            upper_attrs: bits_of(raw, 63, 51) as u16,
        }
    } else {
        TranslationDescriptor::TableDescriptor {
            tag: bits_of(raw, 1, 0) as u8,
            next_level_base: raw & ADDRESS_BITS,
            table_attrs: bits_of(raw, 63, 59) as u8,
        }
    }
}

proof fn lemma_encoded_table(addr: u64)
    by (bit_vector)
    ensures
        with_bits(with_bits(0, 1, 0, 3), 47, 12, addr >> 12) == (addr & 0x0000_ffff_ffff_f000)
            | 3,
        bits_of((addr & 0x0000_ffff_ffff_f000) | 3, 1, 0) == 3,
        bits_of((addr & 0x0000_ffff_ffff_f000) | 3, 51, 48) == 0,
        ((addr & 0x0000_ffff_ffff_f000) | 3) & 0x0000_ffff_ffff_f000 == addr
            & 0x0000_ffff_ffff_f000,
        ((addr & 0x0000_ffff_ffff_f000) | 3) & !0x0000_ffff_ffff_f003u64 == 0,
        bits_of((addr & 0x0000_ffff_ffff_f000) | 3, 63, 59) == 0,
{
}

proof fn lemma_encoded_page(addr: u64, attrs: u8)
    by (bit_vector)
    ensures
        with_bits(
            with_bits(with_bits(0, 1, 0, 3), 11, 2, (attrs as u64) << 2),
            47,
            12,
            addr >> 12,
        ) == (addr & 0x0000_ffff_ffff_f000) | ((attrs as u64) << 4) | 3,
        bits_of((addr & 0x0000_ffff_ffff_f000) | ((attrs as u64) << 4) | 3, 1, 0) == 3,
        bits_of((addr & 0x0000_ffff_ffff_f000) | ((attrs as u64) << 4) | 3, 11, 4) == attrs,
        bits_of((addr & 0x0000_ffff_ffff_f000) | ((attrs as u64) << 4) | 3, 50, 48) == 0,
        ((addr & 0x0000_ffff_ffff_f000) | ((attrs as u64) << 4) | 3) & 0x0000_ffff_ffff_f000
            == addr & 0x0000_ffff_ffff_f000,
        ((addr & 0x0000_ffff_ffff_f000) | ((attrs as u64) << 4) | 3)
            & !0x0000_ffff_ffff_fff3u64 == 0,
        bits_of((addr & 0x0000_ffff_ffff_f000) | ((attrs as u64) << 4) | 3, 63, 51) == 0,
{
}

proof fn lemma_upper_fields(word: u64)
    by (bit_vector)
    ensures
        bits_of(word, 63, 59) <= 0x1f,
        bits_of(word, 63, 51) <= 0x1fff,
{
}

/// Encodes a table descriptor. Whatever `next_level_base` holds outside
/// bits 47..=12 is dropped, so the reserved bits of the result are zero for
/// every input.
pub fn encode_table(next_level_base: u64) -> (raw: u64)
    ensures
        raw == encode_table_spec(next_level_base),
        bits_of(raw, 1, 0) == TABLE,
        bits_of(raw, 51, 48) == 0,
        raw & !TABLE_DESCRIPTOR_BITS == 0,
        is_page_address(next_level_base) ==> raw & ADDRESS_BITS == next_level_base,
{
    proof {
        lemma_encoded_table(next_level_base);
    }
    let mut d = descriptor_table_lvl012::new();
    d.set_type(TABLE);
    d.set_next_level_table_addr(next_level_base);
    d.0
}

/// Encodes a page descriptor. Whatever `output_frame` holds outside bits
/// 47..=12 is dropped, so the reserved bits of the result are zero for every
/// input.
pub fn encode_page(output_frame: u64, lower_attrs: u8) -> (raw: u64)
    ensures
        raw == encode_page_spec(output_frame, lower_attrs),
        bits_of(raw, 1, 0) == PAGE,
        bits_of(raw, 11, 4) == lower_attrs,
        bits_of(raw, 50, 48) == 0,
        raw & !PAGE_DESCRIPTOR_BITS == 0,
        is_page_address(output_frame) ==> raw & ADDRESS_BITS == output_frame,
{
    proof {
        lemma_encoded_page(output_frame, lower_attrs);
    }
    let mut d = descriptor_page_4k_lvl3::new();
    d.set_type(PAGE);
    d.set_lower_attrs(lower_attrs);
    let field: u64 = output_frame >> 12;
    d.0 = set_bits(d.0, 47, 12, field);
    d.0
}

/// Reads the type field and the fields that `level` gives a descriptor.
pub fn decode(raw: u64, level: u8) -> (d: TranslationDescriptor)
    requires
        level <= 3,
    ensures
        d == decode_spec(raw, level),
{
    proof {
        lemma_type_field(raw, 0);
        lemma_address_field(raw, 0);
        lemma_attribute_field(raw, 0, 0);
        lemma_upper_fields(raw);
    }
    let tag: u8 = get_bits(raw, 1, 0) as u8;
    let address: u64 = get_bits(raw, 47, 12) << 12;
    if level == 3 {
        let lower_attrs: u8 = get_bits(raw, 11, 4) as u8;
        let upper_attrs: u16 = get_bits(raw, 63, 51) as u16;
        TranslationDescriptor::PageDescriptor {
            tag,
            output_frame: address,
            lower_attrs,
            upper_attrs,
        }
    } else {
        let table_attrs: u8 = get_bits(raw, 63, 59) as u8;
        TranslationDescriptor::TableDescriptor { tag, next_level_base: address, table_attrs }
    }
}

/// Decoding an encoded table descriptor at a level above the leaf gives the
/// type TABLE, no limits and, for an address that is 4096-aligned and below
/// 2^48, that address again.
pub proof fn lemma_table_round_trip(next_level_base: u64, level: u8)
    requires
        is_page_address(next_level_base),
        level < 3,
    ensures
        decode_spec(encode_table_spec(next_level_base), level)
            == (TranslationDescriptor::TableDescriptor {
            tag: TABLE,
            next_level_base,
            table_attrs: 0,
        }),
{
    lemma_encoded_table(next_level_base);
}

/// Decoding an encoded page descriptor at the leaf level gives the type
/// PAGE, the attribute byte, no upper attributes and, for a frame address
/// that is 4096-aligned and below 2^48, that address again.
pub proof fn lemma_page_round_trip(output_frame: u64, lower_attrs: u8)
    requires
        is_page_address(output_frame),
    ensures
        decode_spec(encode_page_spec(output_frame, lower_attrs), 3)
            == (TranslationDescriptor::PageDescriptor {
            tag: PAGE,
            output_frame,
            lower_attrs,
            upper_attrs: 0,
        }),
{
    lemma_encoded_page(output_frame, lower_attrs);
}

/// An encoded table descriptor has the type TABLE, holds the address bits
/// 47..=12 of its input in place and nothing else: its reserved bits are
/// zero whatever the input.
pub proof fn lemma_encode_table_fields(next_level_base: u64)
    ensures
        bits_of(encode_table_spec(next_level_base), 1, 0) == TABLE,
        bits_of(encode_table_spec(next_level_base), 51, 48) == 0,
        encode_table_spec(next_level_base) & ADDRESS_BITS == next_level_base & ADDRESS_BITS,
        encode_table_spec(next_level_base) & !TABLE_DESCRIPTOR_BITS == 0,
{
    lemma_encoded_table(next_level_base);
}

/// An encoded page descriptor has the type PAGE, holds the address bits
/// 47..=12 of its input in place, the attribute byte in bits 11..=4 and
/// nothing else: its reserved bits are zero whatever the input.
pub proof fn lemma_encode_page_fields(output_frame: u64, lower_attrs: u8)
    ensures
        bits_of(encode_page_spec(output_frame, lower_attrs), 1, 0) == PAGE,
        bits_of(encode_page_spec(output_frame, lower_attrs), 11, 4) == lower_attrs,
        bits_of(encode_page_spec(output_frame, lower_attrs), 50, 48) == 0,
        encode_page_spec(output_frame, lower_attrs) & ADDRESS_BITS == output_frame
            & ADDRESS_BITS,
        encode_page_spec(output_frame, lower_attrs) & !PAGE_DESCRIPTOR_BITS == 0,
{
    lemma_encoded_page(output_frame, lower_attrs);
}

} // verus!

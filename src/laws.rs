//! Properties of the decoders, stated over their models.
use vstd::prelude::*;
use vstd::utf8::{decode_utf8, valid_utf8};

use crate::gif::{
    color_at, has_signature, header_len_of, size_field, spec_parse, spec_parse_color_table,
    spec_parse_lsd, spec_parse_version, spells, table_size_for, version_bytes, GifErrorModel,
    GifModel, GifVersion,
};

verus! {

/// After a `GIF` signature, `87a` and `89a` give their versions, and any
/// other version text gives `UnsupportedVersion` carrying exactly that text.
pub proof fn lemma_version_after_signature(b: Seq<u8>)
    requires
        b.len() == 6,
        has_signature(b),
    ensures
        spells(b, 3, 0x38, 0x37, 0x61) ==> spec_parse_version(b) == Ok::<
            GifVersion,
            GifErrorModel,
        >(GifVersion::V87a),
        spells(b, 3, 0x38, 0x39, 0x61) ==> spec_parse_version(b) == Ok::<
            GifVersion,
            GifErrorModel,
        >(GifVersion::V89a),
        !spells(b, 3, 0x38, 0x37, 0x61) && !spells(b, 3, 0x38, 0x39, 0x61) && valid_utf8(
            version_bytes(b),
        ) ==> spec_parse_version(b) == Err::<GifVersion, GifErrorModel>(
            GifErrorModel::UnsupportedVersion(decode_utf8(version_bytes(b))),
        ),
{
}

/// Without a `GIF` signature decoding fails with `InvalidFormat`, whatever
/// the other bytes are, both for the version block and for a whole header.
pub proof fn lemma_bad_signature_rejected(b: Seq<u8>)
    requires
        b.len() >= 6,
        !has_signature(b),
    ensures
        spec_parse_version(b.subrange(0, 6)) == Err::<GifVersion, GifErrorModel>(
            GifErrorModel::InvalidFormat,
        ),
        spec_parse(b) == Err::<GifModel, GifErrorModel>(GifErrorModel::InvalidFormat),
{
    assert(!has_signature(b.subrange(0, 6)));
}

/// The decoded descriptor depends on its seven bytes alone: equal bytes
/// give equal fields.
pub proof fn lemma_lsd_deterministic(a: Seq<u8>, b: Seq<u8>)
    requires
        a.len() == 7,
        b.len() == 7,
        forall|i: int| 0 <= i < 7 ==> a[i] == b[i],
    ensures
        spec_parse_lsd(a) == spec_parse_lsd(b),
{
    assert(a =~= b);
}

/// For a size field `k`, the descriptor announces `3 * (k + 1)^2` bytes of
/// color table, and a table of exactly that many bytes decodes to
/// `(k + 1)^2` colors, the triples in input order.
pub proof fn lemma_table_size_round_trip(lsd_bytes: Seq<u8>, table: Seq<u8>)
    requires
        lsd_bytes.len() == 7,
        table.len() == spec_parse_lsd(lsd_bytes).global_color_table_size,
    ensures
        ({
            let k = size_field(lsd_bytes[4]);
            &&& spec_parse_lsd(lsd_bytes).global_color_table_size == 3 * ((k + 1) * (k + 1))
            &&& spec_parse_color_table(table) matches Ok(colors) && colors.len() == (k + 1) * (
            k + 1) && forall|i: int| 0 <= i < colors.len() ==> colors[i] == color_at(table, i)
        }),
{
    let k = size_field(lsd_bytes[4]);
    assert((k + 1) * (k + 1) <= 64) by (nonlinear_arith)
        requires
            k < 8,
    ;
    assert(table_size_for(k) < 256);
}

/// Without a global color table the descriptor has no background color
/// index, the header is 13 bytes long and no byte after them is read.
pub proof fn lemma_no_table_stops_after_descriptor(b: Seq<u8>)
    requires
        b.len() >= 13,
        spec_parse_version(b.subrange(0, 6)) is Ok,
        b[10] < 0x80,
    ensures
        ({
            let lsd = spec_parse_lsd(b.subrange(6, 13));
            &&& !lsd.has_global_color_table
            &&& lsd.background_color_index is None
            &&& header_len_of(lsd) == 13
            &&& spec_parse(b) == Ok::<GifModel, GifErrorModel>(
                GifModel {
                    version: spec_parse_version(b.subrange(0, 6))->Ok_0,
                    lsd,
                    global_color_table: None,
                },
            )
            &&& spec_parse(b.subrange(0, 13)) == spec_parse(b)
        }),
{
    let h = b.subrange(0, 13);
    assert(h.subrange(0, 6) =~= b.subrange(0, 6));
    assert(h.subrange(6, 13) =~= b.subrange(6, 13));
}

/// A color table whose byte count is not a multiple of three is rejected
/// with `InvalidFormat`.
pub proof fn lemma_ragged_table_rejected(b: Seq<u8>)
    requires
        b.len() % 3 != 0,
    ensures
        spec_parse_color_table(b) == Err::<Seq<crate::color::Color>, GifErrorModel>(
            GifErrorModel::InvalidFormat,
        ),
{
}

/// Bytes after the header are not interpreted: cutting the input anywhere
/// after the header leaves the result unchanged.
pub proof fn lemma_trailing_bytes_ignored(b: Seq<u8>, n: int)
    requires
        spec_parse(b) matches Ok(g) && header_len_of(g.lsd) <= n,
        n <= b.len(),
    ensures
        spec_parse(b.subrange(0, n)) == spec_parse(b),
{
    let c = b.subrange(0, n);
    assert(c.subrange(0, 6) =~= b.subrange(0, 6));
    assert(c.subrange(6, 13) =~= b.subrange(6, 13));
    let lsd = spec_parse_lsd(b.subrange(6, 13));
    if lsd.has_global_color_table {
        assert(c.subrange(13, header_len_of(lsd) as int) =~= b.subrange(
            13,
            header_len_of(lsd) as int,
        ));
    }
}

} // verus!

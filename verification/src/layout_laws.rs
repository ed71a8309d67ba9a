//! What holds of short names, magic headers and detection.

use vstd::prelude::*;
use crate::error::ErrorView;
use crate::layout::{
    invalid_layout_name, layout_of_magic, spec_determine_format, unrecognized_format, RomType,
    MAGIC_LEN,
};

verus! {

/// The three short names, character by character.
pub proof fn lemma_names(layout: RomType)
    ensures
        layout.spec_name().len() == 3,
        layout.spec_name()[0] == (match layout {
            RomType::ByteSwapped => 'v',
            RomType::LittleEndian => 'n',
            RomType::BigEndian => 'z',
        }),
        layout.spec_name()[1] == '6',
        layout.spec_name()[2] == '4',
{
    reveal_strlit("v64");
    reveal_strlit("n64");
    reveal_strlit("z64");
}

/// A short name stands for one layout only: a string is read as a layout
/// exactly when it is that layout's short name, and every other string is
/// turned down as an invalid name.
pub proof fn lemma_name_identifies_layout(s: Seq<char>, layout: RomType)
    ensures
        RomType::spec_from_string(s) == Ok::<RomType, ErrorView>(layout) <==> s
            == layout.spec_name(),
        (forall|other: RomType| s != other.spec_name()) <==> RomType::spec_from_string(s) == Err::<
            RomType,
            ErrorView,
        >(invalid_layout_name()),
{
    lemma_names(RomType::ByteSwapped);
    lemma_names(RomType::LittleEndian);
    lemma_names(RomType::BigEndian);
}

/// Reading the short name of a layout gives the layout back.
pub proof fn lemma_name_round_trip(layout: RomType)
    ensures
        RomType::spec_from_string(layout.spec_name()) == Ok::<RomType, ErrorView>(layout),
{
    lemma_name_identifies_layout(layout.spec_name(), layout);
}

/// The magic headers have four bytes each and differ from one another.
pub proof fn lemma_magics_differ(a: RomType, b: RomType)
    ensures
        a.spec_magic().len() == MAGIC_LEN,
        a.spec_magic() == b.spec_magic() <==> a == b,
{
    if a != b {
        assert(a.spec_magic()[0] != b.spec_magic()[0]);
    }
}

/// An image is detected as a layout exactly when it starts with that
/// layout's magic header.
pub proof fn lemma_detects_exactly_magic(image: Seq<u8>, layout: RomType)
    ensures
        spec_determine_format(image) == Ok::<RomType, ErrorView>(layout) <==> image.len()
            >= MAGIC_LEN && image.subrange(0, MAGIC_LEN as int) == layout.spec_magic(),
{
    lemma_magics_differ(layout, RomType::ByteSwapped);
    lemma_magics_differ(layout, RomType::LittleEndian);
    lemma_magics_differ(layout, RomType::BigEndian);
}

/// Each of the three magic headers is detected as its own layout, whatever
/// follows it.
pub proof fn lemma_magic_detected(layout: RomType, rest: Seq<u8>)
    ensures
        layout_of_magic(layout.spec_magic()) == Some(layout),
        spec_determine_format(layout.spec_magic() + rest) == Ok::<RomType, ErrorView>(layout),
{
    lemma_magics_differ(layout, RomType::ByteSwapped);
    lemma_magics_differ(layout, RomType::LittleEndian);
    lemma_magics_differ(layout, RomType::BigEndian);
    let image = layout.spec_magic() + rest;
    assert(image.subrange(0, MAGIC_LEN as int) =~= layout.spec_magic());
}

/// An image of four bytes or more that starts with none of the three magic
/// headers is turned down as an unrecognized format.
pub proof fn lemma_other_header_unrecognized(image: Seq<u8>)
    requires
        image.len() >= MAGIC_LEN,
        forall|layout: RomType| image.subrange(0, MAGIC_LEN as int) != layout.spec_magic(),
    ensures
        spec_determine_format(image) == Err::<RomType, ErrorView>(unrecognized_format()),
{
    let header = image.subrange(0, MAGIC_LEN as int);
    assert(header != RomType::ByteSwapped.spec_magic());
    assert(header != RomType::LittleEndian.spec_magic());
    assert(header != RomType::BigEndian.spec_magic());
}

/// Detection depends on the first four bytes alone: two inputs that agree
/// on them are told apart by nothing, so detecting twice on an image that
/// was left alone gives the same answer twice.
pub proof fn lemma_detection_repeatable(first: Seq<u8>, second: Seq<u8>)
    requires
        first.len() >= MAGIC_LEN,
        second.len() >= MAGIC_LEN,
        first.subrange(0, MAGIC_LEN as int) == second.subrange(0, MAGIC_LEN as int),
    ensures
        spec_determine_format(first) == spec_determine_format(second),
{
}

} // verus!

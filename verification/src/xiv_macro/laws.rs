//! What holds of macros that are written to a file and read again.
use crate::dat_error::ErrorKind;
use crate::dat_file::{lemma_replaced_content_reads_back, DATFileView, HEADER_SIZE};
use crate::dat_type::DATType;
use crate::section::{
    encode_sections, lemma_encode_sections_concat, lemma_image_sections_are_read,
    lemma_sections_round_trip, section_of, SectionView,
};
use crate::xiv_macro::icon::{
    icon_of, is_hex_text, lemma_icon_of_is_exact, lemma_icon_texts_are_hex,
};
use crate::xiv_macro::{
    decode_macros, file_encoding, first_refusal, grouped_macros, has_oversized_part, image_macros,
    is_oversized, lemma_blank_is_valid, lemma_macro_of_its_sections, lemma_run_is_inside,
    lemma_tags_are_one_byte, lemma_valid_macro_has_sections, macro_sections, macros_encoding,
    padded_macros, run_len, MacroView, EXPECTED_ITEM_COUNT, SECTION_TAG_ICON, SECTION_TAG_KEY,
    SECTION_TAG_LINE, SECTION_TAG_TITLE,
};
use vstd::prelude::*;
use vstd::utf8::*;

verus! {

/// Whether a text can stand in a section that is read again: whether no zero
/// byte stands among its bytes.
pub open spec fn is_nul_free(text: Seq<char>) -> bool {
    !encode_utf8(text).contains(0u8)
}

/// Whether the title and the lines of a macro can stand in sections that are
/// read again.
pub open spec fn has_nul_free_texts(m: MacroView) -> bool {
    &&& is_nul_free(m.title)
    &&& forall|i: int| 0 <= i < m.lines.len() ==> is_nul_free(#[trigger] m.lines[i])
}

/// Whether a macro is read again from the sections that stand for it in a
/// container: it has a line, and no part of it is too long for its section.
pub open spec fn is_storable(m: MacroView) -> bool {
    &&& m.lines.len() >= 1
    &&& !has_oversized_part(m)
}

/// Whether a macro is decoded again from the bytes that stand for it: it is
/// storable, and no zero byte stands in its texts.
pub open spec fn is_readable(m: MacroView) -> bool {
    &&& is_storable(m)
    &&& has_nul_free_texts(m)
    &&& is_nul_free(m.icon_id)
    &&& is_nul_free(m.icon_key)
}

/// The sections that stand for some macros in a file, one macro behind the
/// other.
pub open spec fn all_sections(macros: Seq<MacroView>) -> Seq<SectionView>
    decreases macros.len(),
{
    if macros.len() == 0 {
        Seq::empty()
    } else {
        macro_sections(macros[0]) + all_sections(macros.drop_first())
    }
}

/// A text of hexadecimal digits holds no zero byte.
pub proof fn lemma_hex_text_is_nul_free(text: Seq<char>)
    requires
        is_hex_text(text),
    ensures
        is_nul_free(text),
{
    assert(is_ascii_chars(text));
    is_ascii_chars_encode_utf8(text);
}

/// A macro that the game accepts, with no zero byte in its title and lines,
/// is read again from the bytes that stand for it.
pub proof fn lemma_valid_macro_is_readable(m: MacroView)
    requires
        m.is_valid(),
        has_nul_free_texts(m),
    ensures
        is_readable(m),
{
    lemma_valid_macro_is_storable(m);
    let icon = icon_of(m.icon_key, m.icon_id).unwrap();
    lemma_icon_of_is_exact(m.icon_key, m.icon_id);
    lemma_icon_texts_are_hex(icon);
    lemma_hex_text_is_nul_free(m.icon_key);
    lemma_hex_text_is_nul_free(m.icon_id);
}

/// The tags of the sections of a macro are those of a title, an icon, a key
/// and lines, and none but the first is that of a title.
pub proof fn lemma_macro_section_tags(m: MacroView)
    ensures
        macro_sections(m).len() == 3 + m.lines.len(),
        macro_sections(m)[0].tag == SECTION_TAG_TITLE@,
        forall|j: int|
            1 <= j < macro_sections(m).len() ==> (#[trigger] macro_sections(m)[j]).tag
                != SECTION_TAG_TITLE@,
{
    reveal_strlit("T");
    reveal_strlit("I");
    reveal_strlit("K");
    reveal_strlit("L");
    assert(SECTION_TAG_ICON@[0] != SECTION_TAG_TITLE@[0]);
    assert(SECTION_TAG_KEY@[0] != SECTION_TAG_TITLE@[0]);
    assert(SECTION_TAG_LINE@[0] != SECTION_TAG_TITLE@[0]);
    let sections = macro_sections(m);
    assert forall|j: int| 1 <= j < sections.len() implies (#[trigger] sections[j]).tag
        != SECTION_TAG_TITLE@ by {
        if j >= 3 {
            assert(sections[j] == section_of(SECTION_TAG_LINE@, m.lines[j - 3]));
        }
    }
}

/// The sections of a storable macro are valid, and where the macro is
/// readable, no zero byte stands in their contents.
pub proof fn lemma_macro_sections_are_valid(m: MacroView)
    requires
        is_storable(m),
    ensures
        forall|j: int|
            0 <= j < macro_sections(m).len() ==> (#[trigger] macro_sections(m)[j]).is_valid(),
        is_readable(m) ==> forall|j: int|
            0 <= j < macro_sections(m).len() ==> is_nul_free(
                (#[trigger] macro_sections(m)[j]).content,
            ),
{
    lemma_tags_are_one_byte();
    let sections = macro_sections(m);
    assert forall|j: int| 0 <= j < sections.len() implies (#[trigger] sections[j]).is_valid() by {
        if j >= 3 {
            assert(sections[j] == section_of(SECTION_TAG_LINE@, m.lines[j - 3]));
            assert(!is_oversized(m.lines[j - 3]));
        }
    }
    if is_readable(m) {
        assert forall|j: int| 0 <= j < sections.len() implies is_nul_free(
            (#[trigger] sections[j]).content,
        ) by {
            if j >= 3 {
                assert(sections[j] == section_of(SECTION_TAG_LINE@, m.lines[j - 3]));
                assert(is_nul_free(m.lines[j - 3]));
            }
        }
    }
}

/// The sections of storable macros are valid, and where the macros are
/// readable, no zero byte stands in their contents.
pub proof fn lemma_all_sections_are_valid(macros: Seq<MacroView>)
    requires
        forall|i: int| 0 <= i < macros.len() ==> is_storable(#[trigger] macros[i]),
    ensures
        forall|j: int|
            0 <= j < all_sections(macros).len() ==> (#[trigger] all_sections(macros)[j]).is_valid(),
        (forall|i: int| 0 <= i < macros.len() ==> is_readable(#[trigger] macros[i])) ==> forall|
            j: int,
        |
            0 <= j < all_sections(macros).len() ==> is_nul_free(
                (#[trigger] all_sections(macros)[j]).content,
            ),
    decreases macros.len(),
{
    if macros.len() > 0 {
        let rest = macros.drop_first();
        assert forall|i: int| 0 <= i < rest.len() implies is_storable(#[trigger] rest[i]) by {
            assert(rest[i] == macros[i + 1]);
        }
        lemma_all_sections_are_valid(rest);
        lemma_macro_sections_are_valid(macros[0]);
        let head = macro_sections(macros[0]);
        let tail = all_sections(rest);
        let sections = all_sections(macros);
        assert forall|j: int| 0 <= j < sections.len() implies (#[trigger] sections[j]).is_valid() by {
            if j < head.len() {
                assert(sections[j] == head[j]);
            } else {
                assert(sections[j] == tail[j - head.len()]);
            }
        }
        if forall|i: int| 0 <= i < macros.len() ==> is_readable(#[trigger] macros[i]) {
            assert forall|i: int| 0 <= i < rest.len() implies is_readable(#[trigger] rest[i]) by {
                assert(rest[i] == macros[i + 1]);
            }
            assert forall|j: int| 0 <= j < sections.len() implies is_nul_free(
                (#[trigger] sections[j]).content,
            ) by {
                if j < head.len() {
                    assert(sections[j] == head[j]);
                } else {
                    assert(sections[j] == tail[j - head.len()]);
                }
            }
        }
    }
}

/// The encoding of storable macros is the encoding of their sections.
pub proof fn lemma_macros_encoding_is_that_of_sections(macros: Seq<MacroView>)
    requires
        forall|i: int| 0 <= i < macros.len() ==> is_storable(#[trigger] macros[i]),
    ensures
        macros_encoding(macros) == Ok::<Seq<u8>, ErrorKind>(encode_sections(all_sections(macros))),
    decreases macros.len(),
{
    if macros.len() == 0 {
        assert(encode_sections(all_sections(macros)) =~= Seq::<u8>::empty());
    } else {
        let rest = macros.drop_first();
        assert forall|i: int| 0 <= i < rest.len() implies is_storable(#[trigger] rest[i]) by {
            assert(rest[i] == macros[i + 1]);
        }
        lemma_macros_encoding_is_that_of_sections(rest);
        lemma_encode_sections_concat(macro_sections(macros[0]), all_sections(rest));
    }
}

/// A run of sections that are no titles, up to a title or to the last
/// section, has the length of the run.
pub proof fn lemma_run_len_of_run(sections: Seq<SectionView>, from: nat, count: nat)
    requires
        from + count <= sections.len(),
        forall|j: int| from <= j < from + count ==> (#[trigger] sections[j]).tag != SECTION_TAG_TITLE@,
        from + count == sections.len() || sections[(from + count) as int].tag == SECTION_TAG_TITLE@,
    ensures
        run_len(sections, from) == count,
    decreases count,
{
    if count > 0 {
        lemma_run_len_of_run(sections, from + 1, (count - 1) as nat);
    }
}

/// A run in sections that stand behind others is the run in those sections
/// alone.
pub proof fn lemma_run_len_shift(before: Seq<SectionView>, sections: Seq<SectionView>, from: nat)
    ensures
        run_len(before + sections, before.len() + from) == run_len(sections, from),
    decreases sections.len() - from,
{
    if from < sections.len() {
        assert((before + sections)[(before.len() + from) as int] == sections[from as int]);
        lemma_run_len_shift(before, sections, from + 1);
    }
}

/// The macros in sections that stand behind others are the macros in those
/// sections alone.
pub proof fn lemma_grouped_shift(before: Seq<SectionView>, sections: Seq<SectionView>, from: nat)
    requires
        from <= sections.len(),
    ensures
        grouped_macros(before + sections, before.len() + from) == grouped_macros(sections, from),
    decreases sections.len() - from,
{
    if from < sections.len() {
        let end = from + 1 + run_len(sections, from + 1);
        lemma_run_is_inside(sections, from + 1);
        lemma_run_len_shift(before, sections, from + 1);
        assert((before + sections).subrange((before.len() + from) as int, (before.len() + end) as int)
            =~= sections.subrange(from as int, end as int));
        lemma_grouped_shift(before, sections, end);
    }
}

/// Macros that have a line each are found again from their sections, put
/// one macro behind the other.
pub proof fn lemma_grouping_finds_macros(macros: Seq<MacroView>)
    requires
        forall|i: int| 0 <= i < macros.len() ==> (#[trigger] macros[i]).lines.len() >= 1,
    ensures
        grouped_macros(all_sections(macros), 0) == Ok::<Seq<MacroView>, ErrorKind>(macros),
    decreases macros.len(),
{
    if macros.len() == 0 {
        assert(macros =~= Seq::<MacroView>::empty());
    } else {
        let first = macros[0];
        let rest = macros.drop_first();
        let head = macro_sections(first);
        let tail = all_sections(rest);
        let sections = all_sections(macros);
        assert forall|i: int| 0 <= i < rest.len() implies (#[trigger] rest[i]).lines.len() >= 1 by {
            assert(rest[i] == macros[i + 1]);
        }
        lemma_grouping_finds_macros(rest);
        lemma_macro_section_tags(first);
        if rest.len() > 0 {
            lemma_macro_section_tags(rest[0]);
            assert(tail[0] == macro_sections(rest[0])[0]);
            assert(sections[head.len() as int] == tail[0]);
        } else {
            assert(tail =~= Seq::<SectionView>::empty());
        }
        assert forall|j: int| 1 <= j < head.len() implies (#[trigger] sections[j]).tag
            != SECTION_TAG_TITLE@ by {
            assert(sections[j] == head[j]);
        }
        lemma_run_len_of_run(sections, 1, (head.len() - 1) as nat);
        assert(sections.subrange(0, head.len() as int) =~= head);
        lemma_macro_of_its_sections(first);
        lemma_grouped_shift(head, tail, 0);
        assert(seq![first] + rest =~= macros);
    }
}

/// Macros that none of the checks of the game refuses are macros that the
/// game accepts, each of them.
pub proof fn lemma_unrefused_macros_are_valid(macros: Seq<MacroView>)
    requires
        first_refusal(macros) is None,
    ensures
        forall|i: int| 0 <= i < macros.len() ==> (#[trigger] macros[i]).is_valid(),
    decreases macros.len(),
{
    if macros.len() > 0 {
        let rest = macros.drop_first();
        lemma_unrefused_macros_are_valid(rest);
        assert forall|i: int| 0 <= i < macros.len() implies (#[trigger] macros[i]).is_valid() by {
            if i > 0 {
                assert(macros[i] == rest[i - 1]);
            }
        }
    }
}

/// Macros that the game accepts are refused by none of its checks.
pub proof fn lemma_valid_macros_are_not_refused(macros: Seq<MacroView>)
    requires
        forall|i: int| 0 <= i < macros.len() ==> (#[trigger] macros[i]).is_valid(),
    ensures
        first_refusal(macros) is None,
    decreases macros.len(),
{
    if macros.len() > 0 {
        let rest = macros.drop_first();
        assert forall|i: int| 0 <= i < rest.len() implies (#[trigger] rest[i]).is_valid() by {
            assert(rest[i] == macros[i + 1]);
        }
        lemma_valid_macros_are_not_refused(rest);
    }
}

/// Readable macros are read again from the bytes that stand for them, put
/// one macro behind the other.
pub proof fn lemma_macros_round_trip(macros: Seq<MacroView>)
    requires
        forall|i: int| 0 <= i < macros.len() ==> is_readable(#[trigger] macros[i]),
    ensures
        macros_encoding(macros) matches Ok(bytes) && decode_macros(bytes) == Ok::<
            Seq<MacroView>,
            ErrorKind,
        >(macros),
{
    lemma_macros_encoding_is_that_of_sections(macros);
    lemma_all_sections_are_valid(macros);
    lemma_sections_round_trip(all_sections(macros));
    lemma_grouping_finds_macros(macros);
}

/// Up to 100 macros that the game accepts, with no zero byte in their titles
/// and lines, are written as the content of a macro file, and what is read
/// from that content is these macros, followed by blank macros up to 100.
pub proof fn lemma_macro_file_round_trip(macros: Seq<MacroView>)
    requires
        macros.len() <= EXPECTED_ITEM_COUNT,
        forall|i: int| 0 <= i < macros.len() ==> (#[trigger] macros[i]).is_valid(),
        forall|i: int| 0 <= i < macros.len() ==> has_nul_free_texts(#[trigger] macros[i]),
    ensures
        padded_macros(macros).len() == EXPECTED_ITEM_COUNT,
        file_encoding(macros) matches Ok(bytes) && decode_macros(bytes) == Ok::<
            Seq<MacroView>,
            ErrorKind,
        >(padded_macros(macros)),
{
    let padded = padded_macros(macros);
    let blank = MacroView::blank();
    lemma_blank_is_valid();
    assert(encode_utf8(Seq::<char>::empty()) =~= Seq::<u8>::empty());
    assert(has_nul_free_texts(blank));
    assert forall|i: int| 0 <= i < padded.len() implies (#[trigger] padded[i]).is_valid()
        && is_readable(padded[i]) by {
        if i < macros.len() {
            assert(padded[i] == macros[i]);
        } else {
            assert(padded[i] == blank);
        }
        lemma_valid_macro_is_readable(padded[i]);
    }
    lemma_valid_macros_are_not_refused(padded);
    lemma_macros_round_trip(padded);
}

/// A macro that the game accepts is storable.
pub proof fn lemma_valid_macro_is_storable(m: MacroView)
    requires
        m.is_valid(),
    ensures
        is_storable(m),
{
    lemma_valid_macro_has_sections(m);
}

/// Up to 100 macros that the game accepts, written to a macro file as its
/// whole content, are read from the image of that file as these macros,
/// followed by blank macros up to 100, wherever the content can be written.
pub proof fn lemma_written_macros_are_read(file: DATFileView, macros: Seq<MacroView>)
    requires
        file.wf(),
        file.cursor == HEADER_SIZE,
        file.file_type == DATType::Macro,
        macros.len() <= EXPECTED_ITEM_COUNT,
        forall|i: int| 0 <= i < macros.len() ==> (#[trigger] macros[i]).is_valid(),
        file_encoding(macros) matches Ok(bytes) && {
            &&& bytes.len() + 1 <= file.max_size
            &&& file.content_size_refusal((bytes.len() + 1) as u32) is None
            &&& file.after_set_content_size((bytes.len() + 1) as u32).write_refusal(
                bytes.len(),
            ) is None
        },
    ensures
        ({
            let bytes = file_encoding(macros).unwrap();
            let written = file.after_set_content_size((bytes.len() + 1) as u32).after_write(bytes);
            &&& written.wf()
            &&& padded_macros(macros).len() == EXPECTED_ITEM_COUNT
            &&& image_macros(written.raw) == Ok::<Seq<MacroView>, ErrorKind>(padded_macros(macros))
        }),
{
    let bytes = file_encoding(macros).unwrap();
    let written = file.after_set_content_size((bytes.len() + 1) as u32).after_write(bytes);
    let padded = padded_macros(macros);
    lemma_padded_macros_are_sections(macros);
    lemma_replaced_content_reads_back(file, bytes);
    lemma_image_sections_are_read(written, all_sections(padded));
}

/// Up to 100 macros that the game accepts can always be encoded as the
/// content of a macro file.
pub proof fn lemma_valid_macros_encode(macros: Seq<MacroView>)
    requires
        macros.len() <= EXPECTED_ITEM_COUNT,
        forall|i: int| 0 <= i < macros.len() ==> (#[trigger] macros[i]).is_valid(),
    ensures
        file_encoding(macros) is Ok,
{
    lemma_padded_macros_are_sections(macros);
}

/// Up to 100 macros that the game accepts are encoded, with the blank macros
/// that follow them, as the encoding of valid sections, one at least, from
/// which the macros are found again.
pub proof fn lemma_padded_macros_are_sections(macros: Seq<MacroView>)
    requires
        macros.len() <= EXPECTED_ITEM_COUNT,
        forall|i: int| 0 <= i < macros.len() ==> (#[trigger] macros[i]).is_valid(),
    ensures
        padded_macros(macros).len() == EXPECTED_ITEM_COUNT,
        file_encoding(macros) == Ok::<Seq<u8>, ErrorKind>(
            encode_sections(all_sections(padded_macros(macros))),
        ),
        all_sections(padded_macros(macros)).len() >= 1,
        forall|j: int|
            0 <= j < all_sections(padded_macros(macros)).len() ==> (#[trigger] all_sections(
                padded_macros(macros),
            )[j]).is_valid(),
        grouped_macros(all_sections(padded_macros(macros)), 0) == Ok::<Seq<MacroView>, ErrorKind>(
            padded_macros(macros),
        ),
{
    let padded = padded_macros(macros);
    lemma_blank_is_valid();
    assert forall|i: int| 0 <= i < padded.len() implies (#[trigger] padded[i]).is_valid()
        && is_storable(padded[i]) by {
        if i < macros.len() {
            assert(padded[i] == macros[i]);
        } else {
            assert(padded[i] == MacroView::blank());
        }
        lemma_valid_macro_is_storable(padded[i]);
    }
    lemma_valid_macros_are_not_refused(padded);
    lemma_macros_encoding_is_that_of_sections(padded);
    lemma_all_sections_are_valid(padded);
    lemma_grouping_finds_macros(padded);
    lemma_macro_section_tags(padded[0]);
}

} // verus!

//! Short channel ids: 24 bits of block height, 24 bits of transaction index and 16 bits of
//! output index in one number, shown to people as `block x transaction x output`.

use ldk_node::lightning::util::scid_utils::{block_from_scid, tx_index_from_scid, vout_from_scid};
use vstd::prelude::*;

use crate::text;

verus! {

/// `scid_utils::block_from_scid` of lightning: the block height, which is what lies above the
/// lowest 40 bits.
pub assume_specification[ block_from_scid ](short_channel_id: u64) -> (res: u32)
    ensures
        res == short_channel_id as int / 0x100_0000_0000,
;

/// `scid_utils::tx_index_from_scid` of lightning: the transaction index, which is the 24 bits
/// above the lowest 16.
pub assume_specification[ tx_index_from_scid ](short_channel_id: u64) -> (res: u32)
    ensures
        res == (short_channel_id as int / 0x1_0000) % 0x100_0000,
;

/// `scid_utils::vout_from_scid` of lightning: the output index, which is the lowest 16 bits.
pub assume_specification[ vout_from_scid ](short_channel_id: u64) -> (res: u16)
    ensures
        res == short_channel_id as int % 0x1_0000,
;

/// The text of the three numbers, each in decimal, with an `x` between them.
pub open spec fn parts_text(block: nat, tx_index: nat, vout: nat) -> Seq<char> {
    text::decimal(block).push('x') + text::decimal(tx_index).push('x') + text::decimal(vout)
}

/// The text that stands for a short channel id.
pub open spec fn scid_text(scid: u64) -> Seq<char> {
    parts_text(
        (scid as int / 0x100_0000_0000) as nat,
        ((scid as int / 0x1_0000) % 0x100_0000) as nat,
        (scid as int % 0x1_0000) as nat,
    )
}

/// The id put together from the three numbers: each is moved to its place and the three are
/// merged bit by bit. Bits of the block height that do not fit are lost.
pub open spec fn scid_of_parts(block: u64, tx_index: u64, vout: u64) -> u64 {
    (block << 40) | (tx_index << 16) | vout
}

/// What a text reads as: its first three fields between `x`s, if each is a number of 64 bits.
/// Further fields are not looked at.
pub open spec fn parsed_scid(input: Seq<char>) -> Option<u64> {
    let parts = text::fields(input, 'x');
    if parts.len() >= 3 && text::parsed_u64(parts[0]) is Some && text::parsed_u64(parts[1]) is Some
        && text::parsed_u64(parts[2]) is Some {
        Some(
            scid_of_parts(text::parsed_u64(parts[0])->0, text::parsed_u64(parts[1])->0, text::parsed_u64(parts[2])->0),
        )
    } else {
        None
    }
}

/// Reads a short channel id as people write it.
pub fn scid_from_human_readable_string(human_readable_scid: &str) -> (res: Result<u64, ()>)
    ensures
        res == (match parsed_scid(human_readable_scid@) {
            Some(scid) => Ok::<u64, ()>(scid),
            None => Err::<u64, ()>(()),
        }),
{
    let parts = text::split(human_readable_scid, 'x');
    let ghost views = parts@.map_values(|field: Vec<char>| field@);
    if parts.len() < 3 {
        return Err(());
    }
    assert(views[0] == parts@[0]@ && views[1] == parts@[1]@ && views[2] == parts@[2]@);
    match (text::parse_u64(&parts[0]), text::parse_u64(&parts[1]), text::parse_u64(&parts[2])) {
        (Some(block), Some(tx_index), Some(vout_index)) => Ok(
            (block << 40) | (tx_index << 16) | vout_index,
        ),
        _ => Err(()),
    }
}

/// Shows a short channel id as people write it.
pub fn scid_to_string(scid: u64) -> (res: String)
    ensures
        res@ == scid_text(scid),
{
    let block = block_from_scid(scid);
    let tx_index = tx_index_from_scid(scid);
    let vout = vout_from_scid(scid);
    let mut res = String::new();
    text::push_decimal(&mut res, block as u64);
    res.push('x');
    text::push_decimal(&mut res, tx_index as u64);
    res.push('x');
    text::push_decimal(&mut res, vout as u64);
    proof {
        assert(res@ =~= scid_text(scid));
    }
    res
}

/// The three fields of such a text are the three numbers.
proof fn lemma_fields_of_parts(block: nat, tx_index: nat, vout: nat)
    ensures
        text::fields(parts_text(block, tx_index, vout), 'x') == seq![
            text::decimal(block),
            text::decimal(tx_index),
            text::decimal(vout),
        ],
{
    let b = text::decimal(block);
    let t = text::decimal(tx_index);
    let v = text::decimal(vout);
    text::lemma_decimal_has_no_separator(block, 'x');
    text::lemma_decimal_has_no_separator(tx_index, 'x');
    text::lemma_decimal_has_no_separator(vout, 'x');
    let none = Seq::<char>::empty();
    assert(none + b =~= b);
    assert(none + t =~= t);
    assert(none + v =~= v);

    text::lemma_fields_extend(none, b, 'x');
    assert(text::fields(b, 'x') =~= seq![b]);
    text::lemma_fields_separator(b, 'x');
    let first = b.push('x');
    assert(text::fields(first, 'x') =~= seq![b, none]);

    text::lemma_fields_extend(first, t, 'x');
    assert(text::fields(first + t, 'x') =~= seq![b, t]);
    text::lemma_fields_separator(first + t, 'x');
    let second = (first + t).push('x');
    assert(text::fields(second, 'x') =~= seq![b, t, none]);

    text::lemma_fields_extend(second, v, 'x');
    assert(text::fields(second + v, 'x') =~= seq![b, t, v]);
    assert(second + v =~= parts_text(block, tx_index, vout));
}

/// Three numbers written with an `x` between them read as the id put together from them.
pub proof fn law_parts_read_back(block: u64, tx_index: u64, vout: u64)
    ensures
        parsed_scid(parts_text(block as nat, tx_index as nat, vout as nat)) == Some(
            scid_of_parts(block, tx_index, vout),
        ),
{
    lemma_fields_of_parts(block as nat, tx_index as nat, vout as nat);
    text::law_decimal_reads_back(block);
    text::law_decimal_reads_back(tx_index);
    text::law_decimal_reads_back(vout);
}

proof fn lemma_parts_add_up(block: u64, tx_index: u64, vout: u64)
    by (bit_vector)
    requires
        block < 0x100_0000,
        tx_index < 0x100_0000,
        vout < 0x1_0000,
    ensures
        (block << 40) | (tx_index << 16) | vout == block * 0x100_0000_0000 + tx_index * 0x1_0000 + vout,
{
}

proof fn lemma_parts_come_apart(block: int, tx_index: int, vout: int)
    requires
        0 <= block < 0x100_0000,
        0 <= tx_index < 0x100_0000,
        0 <= vout < 0x1_0000,
    ensures
        ({
            let sum = block * 0x100_0000_0000 + tx_index * 0x1_0000 + vout;
            &&& sum / 0x100_0000_0000 == block
            &&& (sum / 0x1_0000) % 0x100_0000 == tx_index
            &&& sum % 0x1_0000 == vout
        }),
{
    let sum = block * 0x100_0000_0000 + tx_index * 0x1_0000 + vout;
    assert(sum / 0x1_0000 == block * 0x100_0000 + tx_index);
}

/// Numbers that fit their places are kept apart in the id, and the id is shown as these numbers.
pub proof fn law_parts_are_shown_again(block: u64, tx_index: u64, vout: u64)
    requires
        block < 0x100_0000,
        tx_index < 0x100_0000,
        vout < 0x1_0000,
    ensures
        scid_of_parts(block, tx_index, vout) == block * 0x100_0000_0000 + tx_index * 0x1_0000 + vout,
        scid_text(scid_of_parts(block, tx_index, vout)) == parts_text(
            block as nat,
            tx_index as nat,
            vout as nat,
        ),
{
    lemma_parts_add_up(block, tx_index, vout);
    lemma_parts_come_apart(block as int, tx_index as int, vout as int);
}

/// Every short channel id reads back from its own text.
pub proof fn law_scid_reads_back(scid: u64)
    ensures
        parsed_scid(scid_text(scid)) == Some(scid),
{
    let block = (scid as int / 0x100_0000_0000) as u64;
    let tx_index = ((scid as int / 0x1_0000) % 0x100_0000) as u64;
    let vout = (scid as int % 0x1_0000) as u64;
    law_parts_read_back(block, tx_index, vout);
    law_parts_are_shown_again(block, tx_index, vout);
    assert(scid == block * 0x100_0000_0000 + tx_index * 0x1_0000 + vout);
}

/// A short channel id is shown as three decimal numbers with an `x` between them: its highest 24
/// bits, the 24 bits after them, and its lowest 16 bits.
pub proof fn law_a_scid_is_shown_by_its_parts(block: u64, tx_index: u64, vout: u64, scid: u64)
    requires
        block <= 0xff_ffff,
        tx_index <= 0xff_ffff,
        vout <= 0xffff,
        scid == block * 0x100_0000_0000 + tx_index * 0x1_0000 + vout,
    ensures
        scid_text(scid) == text::decimal(block as nat) + seq!['x'] + text::decimal(tx_index as nat)
            + seq!['x'] + text::decimal(vout as nat),
{
    lemma_parts_come_apart(block as int, tx_index as int, vout as int);
    assert(scid_text(scid) =~= text::decimal(block as nat) + seq!['x'] + text::decimal(
        tx_index as nat,
    ) + seq!['x'] + text::decimal(vout as nat));
}

/// A text reads as a short channel id exactly when there are numbers in its first three fields,
/// whatever follows them, and then as these numbers moved up by 40, 16 and no bits and merged.
pub proof fn law_a_scid_is_read_from_three_fields(
    block: Seq<char>,
    tx_index: Seq<char>,
    vout: Seq<char>,
    rest: Seq<char>,
)
    requires
        !block.contains('x'),
        !tx_index.contains('x'),
        !vout.contains('x'),
        rest.len() == 0 || rest[0] == 'x',
    ensures
        parsed_scid(block + seq!['x'] + tx_index + seq!['x'] + vout + rest) == (match (
            text::parsed_u64(block),
            text::parsed_u64(tx_index),
            text::parsed_u64(vout),
        ) {
            (Some(b), Some(t), Some(v)) => Some((b << 40) | (t << 16) | v),
            _ => None,
        }),
        parsed_scid(block) is None,
        parsed_scid(block + seq!['x'] + tx_index) is None,
{
    let none = Seq::<char>::empty();
    assert(none + block =~= block);
    assert(none + tx_index =~= tx_index);
    assert(none + vout =~= vout);
    text::lemma_fields_extend(none, block, 'x');
    assert(text::fields(block, 'x') =~= seq![block]);
    text::lemma_fields_separator(block, 'x');
    let first = block.push('x');
    assert(first =~= block + seq!['x']);
    assert(text::fields(first, 'x') =~= seq![block, none]);
    text::lemma_fields_extend(first, tx_index, 'x');
    assert(text::fields(first + tx_index, 'x') =~= seq![block, tx_index]);
    text::lemma_fields_separator(first + tx_index, 'x');
    let second = (first + tx_index).push('x');
    assert(second =~= first + tx_index + seq!['x']);
    assert(text::fields(second, 'x') =~= seq![block, tx_index, none]);
    text::lemma_fields_extend(second, vout, 'x');
    let three = second + vout;
    assert(text::fields(three, 'x') =~= seq![block, tx_index, vout]);
    lemma_first_fields_stay(three, rest);
    assert(three + rest =~= block + seq!['x'] + tx_index + seq!['x'] + vout + rest);
}

/// What follows a separator leaves the fields before it as they are.
proof fn lemma_first_fields_stay(s: Seq<char>, rest: Seq<char>)
    requires
        rest.len() == 0 || rest[0] == 'x',
    ensures
        text::fields(s + rest, 'x').len() >= text::fields(s, 'x').len(),
        text::fields(s + rest, 'x').take(text::fields(s, 'x').len() as int) == text::fields(s, 'x'),
        rest.len() > 0 ==> text::fields(s + rest, 'x').len() > text::fields(s, 'x').len(),
    decreases rest.len(),
{
    let before = text::fields(s, 'x');
    if rest.len() == 0 {
        assert(s + rest =~= s);
        assert(before.take(before.len() as int) =~= before);
    } else {
        let shorter = rest.drop_last();
        if shorter.len() > 0 {
            assert(shorter[0] == rest[0]);
        }
        lemma_first_fields_stay(s, shorter);
        assert((s + rest) =~= (s + shorter).push(rest.last()));
        text::law_fields_grow_character_by_character(s + shorter, rest.last(), 'x');
        if shorter.len() == 0 {
            assert(s + shorter =~= s);
        }
        assert(text::fields(s + rest, 'x').take(before.len() as int) =~= text::fields(
            s + shorter,
            'x',
        ).take(before.len() as int));
    }
}

} // verus!

//! Editable text fields with a byte-offset cursor over variable-width text.
//!
//! A field is an ordered sequence of Unicode scalar values together with a
//! cursor.  The cursor is kept both as an index into the scalar sequence and
//! as the byte offset of that position in the field's UTF-8 encoding, and the
//! two are tied together by the invariant [`EditableField::inv`]: the byte
//! offset is always the exact encoded width of the prefix before the cursor,
//! so it always lies on a scalar-value boundary.

use vstd::prelude::*;

verus! {

/// Encoded UTF-8 byte width of one Unicode scalar value: 1 to 4 bytes,
/// depending on the scalar's numeric value.
pub open spec fn char_width(c: char) -> int {
    if (c as u32) < 0x80 {
        1
    } else if (c as u32) < 0x800 {
        2
    } else if (c as u32) < 0x10000 {
        3
    } else {
        4
    }
}

/// Total UTF-8 byte width of a sequence of scalar values.
pub open spec fn text_width(s: Seq<char>) -> int
    decreases s.len(),
{
    if s.len() == 0 {
        0
    } else {
        char_width(s[0]) + text_width(s.drop_first())
    }
}

/// Executable form of [`char_width`].
pub fn scalar_width(c: char) -> (w: usize)
    ensures
        w == char_width(c),
{
    let u = c as u32;
    if u < 0x80 {
        1
    } else if u < 0x800 {
        2
    } else if u < 0x10000 {
        3
    } else {
        4
    }
}

pub proof fn lemma_text_width_nonneg(s: Seq<char>)
    ensures
        text_width(s) >= 0,
    decreases s.len(),
{
    if s.len() > 0 {
        lemma_text_width_nonneg(s.drop_first());
    }
}

pub proof fn lemma_text_width_concat(a: Seq<char>, b: Seq<char>)
    ensures
        text_width(a + b) == text_width(a) + text_width(b),
    decreases a.len(),
{
    if a.len() == 0 {
        assert(a + b =~= b);
    } else {
        lemma_text_width_concat(a.drop_first(), b);
        assert((a + b).drop_first() =~= a.drop_first() + b);
        assert((a + b)[0] == a[0]);
    }
}

/// The width of a sequence splits at any position into the width of the
/// prefix plus the width of the rest.
pub proof fn lemma_text_width_split(s: Seq<char>, i: int)
    requires
        0 <= i <= s.len(),
    ensures
        text_width(s) == text_width(s.take(i)) + text_width(s.skip(i)),
{
    assert(s =~= s.take(i) + s.skip(i));
    lemma_text_width_concat(s.take(i), s.skip(i));
}

pub proof fn lemma_text_width_push(s: Seq<char>, c: char)
    ensures
        text_width(s.push(c)) == text_width(s) + char_width(c),
{
    assert(s.push(c) =~= s + seq![c]);
    lemma_text_width_concat(s, seq![c]);
    assert(seq![c].drop_first() =~= Seq::<char>::empty());
    assert(seq![c][0] == c);
    assert(text_width(seq![c]) == char_width(c) + text_width(seq![c].drop_first()));
}

/// Extending a prefix by one scalar extends its width by that scalar's width.
pub proof fn lemma_text_width_take_succ(s: Seq<char>, i: int)
    requires
        0 <= i < s.len(),
    ensures
        text_width(s.take(i + 1)) == text_width(s.take(i)) + char_width(s[i]),
{
    assert(s.take(i + 1) =~= s.take(i).push(s[i]));
    lemma_text_width_push(s.take(i), s[i]);
}

pub proof fn lemma_text_width_skip_first(s: Seq<char>, i: int)
    requires
        0 <= i < s.len(),
    ensures
        text_width(s.skip(i)) == char_width(s[i]) + text_width(s.skip(i + 1)),
{
    assert(s.skip(i).len() > 0);
    assert(s.skip(i)[0] == s[i]);
    assert(s.skip(i).drop_first() =~= s.skip(i + 1));
}

/// A prefix never weighs more than the whole sequence.
pub proof fn lemma_prefix_width_le(s: Seq<char>, i: int)
    requires
        0 <= i <= s.len(),
    ensures
        0 <= text_width(s.take(i)) <= text_width(s),
{
    lemma_text_width_split(s, i);
    lemma_text_width_nonneg(s.take(i));
    lemma_text_width_nonneg(s.skip(i));
}

pub proof fn lemma_text_width_insert(s: Seq<char>, i: int, c: char)
    requires
        0 <= i <= s.len(),
    ensures
        text_width(s.insert(i, c)) == text_width(s) + char_width(c),
{
    assert(s.insert(i, c) =~= s.take(i).push(c) + s.skip(i));
    lemma_text_width_concat(s.take(i).push(c), s.skip(i));
    lemma_text_width_push(s.take(i), c);
    lemma_text_width_split(s, i);
}

pub proof fn lemma_text_width_remove(s: Seq<char>, i: int)
    requires
        0 <= i < s.len(),
    ensures
        text_width(s.remove(i)) == text_width(s) - char_width(s[i]),
{
    assert(s.remove(i) =~= s.take(i) + s.skip(i + 1));
    lemma_text_width_concat(s.take(i), s.skip(i + 1));
    lemma_text_width_split(s, i);
    lemma_text_width_skip_first(s, i);
}

/// An editable line of text: a sequence of Unicode scalar values plus a
/// cursor that always sits on a scalar-value boundary.
#[derive(Debug)]
pub struct EditableField {
    chars: Vec<char>,
    cursor_chars: usize,
    cursor_bytes: usize,
    total_bytes: usize,
}

impl View for EditableField {
    type V = Seq<char>;

    closed spec fn view(&self) -> Seq<char> {
        self.chars@
    }
}

impl EditableField {
    /// The cursor's position as an index into the scalar sequence.
    pub closed spec fn cursor(self) -> int {
        self.cursor_chars as int
    }

    /// The cursor's position as a byte offset into the UTF-8 encoding.
    pub closed spec fn cursor_byte(self) -> int {
        self.cursor_bytes as int
    }

    /// The field's total encoded byte length.
    pub closed spec fn byte_size(self) -> int {
        self.total_bytes as int
    }

    /// Well-formedness: the cursor indexes into the text, its byte offset is
    /// the exact encoded width of the prefix before it — so it lies on a
    /// scalar-value boundary — and the cached byte length is exact.
    pub open spec fn inv(self) -> bool {
        &&& 0 <= self.cursor() <= self@.len()
        &&& self.cursor_byte() == text_width(self@.take(self.cursor()))
        &&& self.byte_size() == text_width(self@)
    }

    /// Room for one more scalar of any width without overflowing the byte
    /// count; always true for any field a machine can hold.
    pub open spec fn can_grow(self) -> bool {
        text_width(self@) + 4 <= usize::MAX
    }

    /// An empty field with the cursor at the start.
    pub open spec fn is_blank(self) -> bool {
        &&& self@ == Seq::<char>::empty()
        &&& self.cursor() == 0
        &&& self.cursor_byte() == 0
        &&& self.byte_size() == 0
    }

    /// A fresh empty field with the cursor at the start.
    pub fn new() -> (f: EditableField)
        ensures
            f.inv(),
            f@ == Seq::<char>::empty(),
            f.cursor() == 0,
            f.cursor_byte() == 0,
            f.byte_size() == 0,
    {
        let f = EditableField { chars: Vec::new(), cursor_chars: 0, cursor_bytes: 0, total_bytes: 0 };
        proof {
            assert(f.chars@.take(0) =~= Seq::<char>::empty());
        }
        f
    }

    /// The encoded byte length of the whole field; equal to `text_width` of
    /// the contents whenever the field is well-formed.
    pub fn byte_len(&self) -> (n: usize)
        ensures
            n == self.byte_size(),
    {
        self.total_bytes
    }

    /// How many scalar values the field holds.
    pub fn char_count(&self) -> (n: usize)
        ensures
            n == self@.len(),
    {
        self.chars.len()
    }

    /// The cursor's byte offset, for callers that address the text by bytes.
    pub fn cursor_byte_offset(&self) -> (n: usize)
        ensures
            n == self.cursor_byte(),
    {
        self.cursor_bytes
    }

    /// The cursor's index into the scalar sequence.
    pub fn cursor_index(&self) -> (n: usize)
        ensures
            n == self.cursor(),
    {
        self.cursor_chars
    }

    pub fn is_empty(&self) -> (b: bool)
        ensures
            b <==> self@.len() == 0,
    {
        self.chars.is_empty()
    }

    /// The scalar value at the given index.
    pub fn char_at(&self, i: usize) -> (c: char)
        requires
            i < self@.len(),
        ensures
            c == self@[i as int],
    {
        self.chars[i]
    }

    /// Move the cursor forward over the scalar value that starts at it; a
    /// no-op when the cursor is already at the end.
    pub fn advance_cursor(&mut self)
        requires
            old(self).inv(),
        ensures
            final(self).inv(),
            final(self)@ == old(self)@,
            final(self).byte_size() == old(self).byte_size(),
            old(self).cursor() == old(self)@.len() ==> *final(self) == *old(self),
            old(self).cursor() < old(self)@.len() ==> {
                &&& final(self).cursor() == old(self).cursor() + 1
                &&& final(self).cursor_byte() == old(self).cursor_byte()
                    + char_width(old(self)@[old(self).cursor()])
            },
    {
        if self.cursor_chars < self.chars.len() {
            let c = self.chars[self.cursor_chars];
            let w = scalar_width(c);
            proof {
                lemma_text_width_take_succ(self.chars@, self.cursor_chars as int);
                lemma_prefix_width_le(self.chars@, self.cursor_chars as int + 1);
            }
            self.cursor_bytes = self.cursor_bytes + w;
            self.cursor_chars = self.cursor_chars + 1;
        }
    }

    /// Move the cursor back to the start of the preceding scalar value; a
    /// no-op when the cursor is already at the start.
    pub fn retreat_cursor(&mut self)
        requires
            old(self).inv(),
        ensures
            final(self).inv(),
            final(self)@ == old(self)@,
            final(self).byte_size() == old(self).byte_size(),
            old(self).cursor() == 0 ==> *final(self) == *old(self),
            old(self).cursor() > 0 ==> {
                &&& final(self).cursor() == old(self).cursor() - 1
                &&& final(self).cursor_byte() == old(self).cursor_byte()
                    - char_width(old(self)@[old(self).cursor() - 1])
            },
    {
        if self.cursor_chars > 0 {
            let c = self.chars[self.cursor_chars - 1];
            let w = scalar_width(c);
            proof {
                lemma_text_width_take_succ(self.chars@, self.cursor_chars as int - 1);
                lemma_text_width_nonneg(self.chars@.take(self.cursor_chars as int - 1));
            }
            self.cursor_bytes = self.cursor_bytes - w;
            self.cursor_chars = self.cursor_chars - 1;
        }
    }

    /// Insert a scalar value at the cursor and advance the cursor past it.
    /// When the field could not take 4 more bytes — beyond any machine-real
    /// field — the insertion is ignored.
    pub fn insert_at_cursor(&mut self, c: char)
        requires
            old(self).inv(),
        ensures
            final(self).inv(),
            !old(self).can_grow() ==> *final(self) == *old(self),
            old(self).can_grow() ==> {
                &&& final(self)@ == old(self)@.insert(old(self).cursor(), c)
                &&& final(self).cursor() == old(self).cursor() + 1
                &&& final(self).cursor_byte() == old(self).cursor_byte() + char_width(c)
                &&& final(self).byte_size() == old(self).byte_size() + char_width(c)
            },
    {
        if self.total_bytes <= usize::MAX - 4 {
            let ghost pre = *self;
            let w = scalar_width(c);
            proof {
                lemma_text_width_insert(pre.chars@, pre.cursor_chars as int, c);
                lemma_prefix_width_le(pre.chars@, pre.cursor_chars as int);
                lemma_text_width_push(pre.chars@.take(pre.cursor_chars as int), c);
                assert(pre.chars@.insert(pre.cursor_chars as int, c).take(
                    pre.cursor_chars as int + 1,
                ) =~= pre.chars@.take(pre.cursor_chars as int).push(c));
            }
            self.chars.insert(self.cursor_chars, c);
            // The grown length fits in usize, so the cursor increment does too.
            let _grown_len = self.chars.len();
            self.total_bytes = self.total_bytes + w;
            self.cursor_bytes = self.cursor_bytes + w;
            self.cursor_chars = self.cursor_chars + 1;
        }
    }

    /// Remove the scalar value that starts at the cursor, if any; the cursor
    /// does not move.
    pub fn remove_at_cursor(&mut self)
        requires
            old(self).inv(),
        ensures
            final(self).inv(),
            old(self).cursor() == old(self)@.len() ==> *final(self) == *old(self),
            old(self).cursor() < old(self)@.len() ==> {
                &&& final(self)@ == old(self)@.remove(old(self).cursor())
                &&& final(self).cursor() == old(self).cursor()
                &&& final(self).cursor_byte() == old(self).cursor_byte()
                &&& final(self).byte_size() == old(self).byte_size()
                    - char_width(old(self)@[old(self).cursor()])
            },
    {
        if self.cursor_chars < self.chars.len() {
            let ghost pre = *self;
            let c = self.chars[self.cursor_chars];
            let w = scalar_width(c);
            proof {
                lemma_text_width_remove(pre.chars@, pre.cursor_chars as int);
                lemma_text_width_split(pre.chars@, pre.cursor_chars as int);
                lemma_text_width_skip_first(pre.chars@, pre.cursor_chars as int);
                lemma_text_width_nonneg(pre.chars@.skip(pre.cursor_chars as int + 1));
                lemma_text_width_nonneg(pre.chars@.take(pre.cursor_chars as int));
                assert(pre.chars@.remove(pre.cursor_chars as int).take(pre.cursor_chars as int)
                    =~= pre.chars@.take(pre.cursor_chars as int));
            }
            self.chars.remove(self.cursor_chars);
            self.total_bytes = self.total_bytes - w;
        }
    }

    /// Remove the scalar value before the cursor and move the cursor back
    /// over it; a no-op when the cursor is at the start.
    pub fn backspace(&mut self)
        requires
            old(self).inv(),
        ensures
            final(self).inv(),
            old(self).cursor() == 0 ==> *final(self) == *old(self),
            old(self).cursor() > 0 ==> {
                &&& final(self)@ == old(self)@.remove(old(self).cursor() - 1)
                &&& final(self).cursor() == old(self).cursor() - 1
                &&& final(self).cursor_byte() == old(self).cursor_byte()
                    - char_width(old(self)@[old(self).cursor() - 1])
            },
    {
        if self.cursor_chars > 0 {
            self.retreat_cursor();
            self.remove_at_cursor();
        }
    }

    /// Empty the field, replacing its storage with a fresh one so that prior
    /// contents are not retained, and put the cursor at the start.
    pub fn clear(&mut self)
        ensures
            final(self).inv(),
            final(self)@ == Seq::<char>::empty(),
            final(self).cursor() == 0,
            final(self).cursor_byte() == 0,
            final(self).byte_size() == 0,
    {
        self.chars = Vec::new();
        self.cursor_chars = 0;
        self.cursor_bytes = 0;
        self.total_bytes = 0;
        proof {
            assert(self.chars@.take(0) =~= Seq::<char>::empty());
        }
    }

    /// Put the cursor after the last scalar value.
    pub fn move_cursor_to_end(&mut self)
        requires
            old(self).inv(),
        ensures
            final(self).inv(),
            final(self)@ == old(self)@,
            final(self).byte_size() == old(self).byte_size(),
            final(self).cursor() == old(self)@.len(),
            final(self).cursor_byte() == text_width(old(self)@),
    {
        self.cursor_chars = self.chars.len();
        self.cursor_bytes = self.total_bytes;
        proof {
            assert(self.chars@.take(self.chars@.len() as int) =~= self.chars@);
        }
    }

    /// The field's contents as a `String`.
    pub fn text(&self) -> (s: String)
        ensures
            s@ == self@,
    {
        let mut s = String::new();
        proof {
            assert(self.chars@.take(0) =~= Seq::<char>::empty());
        }
        let mut i: usize = 0;
        while i < self.chars.len()
            invariant
                i <= self.chars@.len(),
                s@ == self.chars@.take(i as int),
            decreases self.chars@.len() - i,
        {
            push_char(&mut s, self.chars[i]);
            proof {
                assert(self.chars@.take(i as int + 1) =~= self.chars@.take(i as int).push(
                    self.chars@[i as int],
                ));
            }
            i = i + 1;
        }
        proof {
            assert(self.chars@.take(self.chars@.len() as int) =~= self.chars@);
        }
        s
    }
}

/// The cursor of any well-formed field lies within the field and on a
/// scalar-value boundary: its byte offset is the exact encoded width of the
/// prefix of the text before it.  Every editing operation above keeps
/// [`EditableField::inv`], so this holds after any sequence of them.
pub proof fn lemma_cursor_on_boundary(f: EditableField)
    requires
        f.inv(),
    ensures
        0 <= f.cursor() <= f@.len(),
        0 <= f.cursor_byte() <= text_width(f@),
        f.cursor_byte() == text_width(f@.take(f.cursor())),
{
    lemma_prefix_width_le(f@, f.cursor());
}

/// Relies on `String::push`: appends the given character to the end of the
/// string.
#[verifier::external_body]
fn push_char(s: &mut String, c: char)
    ensures
        final(s)@ == old(s)@.push(c),
{
    s.push(c);
}

} // verus!

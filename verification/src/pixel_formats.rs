//! An ordered collection of pixel formats, with checked access by index and
//! a cursor that walks it from the front.

use vstd::prelude::*;
use crate::pixel_format::PixelFormat;

verus! {

/// What a checked lookup at `index` finds in `formats`: the element there,
/// or nothing once the index has reached the length.
pub open spec fn lookup(formats: Seq<PixelFormat>, index: nat) -> Option<PixelFormat> {
    if index < formats.len() {
        Some(formats[index as int])
    } else {
        None
    }
}

/// The formats that a cursor standing at `position` still hands out, one
/// checked lookup after the other, until a lookup finds nothing.
pub open spec fn walk(formats: Seq<PixelFormat>, position: nat) -> Seq<PixelFormat>
    decreases formats.len() - position,
{
    match lookup(formats, position) {
        Some(format) => seq![format] + walk(formats, position + 1),
        None => Seq::empty(),
    }
}

/// The formats that a device or a stream configuration supports, in the
/// order in which the camera stack listed them.
///
/// The collection owns its elements. It is neither `Clone` nor `Copy`: there
/// is one owner, and the elements go when the owner goes.
pub struct PixelFormats {
    formats: Vec<PixelFormat>,
}

impl View for PixelFormats {
    type V = Seq<PixelFormat>;

    closed spec fn view(&self) -> Seq<PixelFormat> {
        self.formats@
    }
}

impl PixelFormats {
    /// Takes over the formats that the producer read from the camera stack.
    pub fn from_vec(formats: Vec<PixelFormat>) -> (collection: Self)
        ensures
            collection@ == formats@,
    {
        PixelFormats { formats }
    }

    /// Reads a collection out of a source that holds `length` formats and
    /// hands out the one at an index on request.
    ///
    /// All that is demanded of the source is that it can be asked for the
    /// indices below `length`. So it is asked for no other index, and a
    /// source that must not be asked beyond its length is safe here. Each
    /// element of the collection is an answer of the source for its index.
    pub fn from_fn<F: Fn(usize) -> PixelFormat>(length: usize, fetch: F) -> (collection: Self)
        requires
            forall|index: usize| index < length ==> call_requires(fetch, (index,)),
        ensures
            collection@.len() == length,
            forall|index: usize|
                index < length ==> call_ensures(
                    fetch,
                    (index,),
                    #[trigger] collection@[index as int],
                ),
    {
        let mut formats: Vec<PixelFormat> = Vec::new();
        let mut index: usize = 0;
        while index < length
            invariant
                index <= length,
                formats@.len() == index,
                forall|below: usize| below < length ==> call_requires(fetch, (below,)),
                forall|below: usize|
                    below < index ==> call_ensures(fetch, (below,), #[trigger] formats@[below as int]),
            decreases length - index,
        {
            let format = fetch(index);
            formats.push(format);
            index += 1;
        }
        PixelFormats { formats }
    }

    /// The number of formats.
    pub fn len(&self) -> (length: usize)
        ensures
            length == self@.len(),
    {
        self.formats.len()
    }

    /// The format at `index`, or `None` where `index` is not below `len()`.
    /// An index out of range is an ordinary question with the answer `None`.
    pub fn get(&self, index: usize) -> (found: Option<PixelFormat>)
        ensures
            found == lookup(self@, index as nat),
    {
        if index >= self.len() {
            None
        } else {
            Some(self.get_unchecked(index))
        }
    }

    /// The format at `index`, for a caller that has already established the
    /// bound.
    pub fn get_unchecked(&self, index: usize) -> (format: PixelFormat)
        requires
            index < self@.len(),
        ensures
            format == self@[index as int],
    {
        self.formats[index]
    }

    /// A fresh cursor at the front of the collection. Any number of cursors
    /// may be taken, one after the other or at the same time.
    pub fn into_iter(&self) -> (cursor: PixelFormatsIterator<'_>)
        ensures
            cursor.formats() == self@,
            cursor.position() == 0,
            cursor.remaining() == self@,
    {
        proof {
            lemma_walk_is_rest(self@, 0);
        }
        PixelFormatsIterator { formats: self, index: 0 }
    }

    /// Walks the collection with a fresh cursor and gathers what it hands out.
    pub fn to_vec(&self) -> (gathered: Vec<PixelFormat>)
        ensures
            gathered@ == walk(self@, 0),
            gathered@ == self@,
    {
        let mut gathered: Vec<PixelFormat> = Vec::new();
        let mut cursor = self.into_iter();
        proof {
            lemma_walk_is_rest(self@, 0);
        }
        loop
            invariant
                cursor.formats() == self@,
                cursor.position() <= self@.len(),
                gathered@ == self@.take(cursor.position() as int),
            ensures
                gathered@ == self@,
            decreases self@.len() - cursor.position(),
        {
            match cursor.next() {
                Some(format) => {
                    gathered.push(format);
                },
                None => {
                    break;
                },
            }
        }
        gathered
    }
}

/// A cursor into a collection of formats: it borrows the collection, never
/// changes it, and hands out the formats from the front on.
pub struct PixelFormatsIterator<'d> {
    formats: &'d PixelFormats,
    index: usize,
}

impl<'d> PixelFormatsIterator<'d> {
    /// The contents of the collection that the cursor walks.
    pub closed spec fn formats(&self) -> Seq<PixelFormat> {
        self.formats@
    }

    /// The index of the format that the cursor hands out next.
    pub closed spec fn position(&self) -> nat {
        self.index as nat
    }

    /// What the cursor still hands out before it is exhausted.
    pub open spec fn remaining(&self) -> Seq<PixelFormat> {
        walk(self.formats(), self.position())
    }

    /// Hands out the format under the cursor and moves on by one, or
    /// returns `None` and stays where it is once the collection is used up.
    pub fn next(&mut self) -> (handed: Option<PixelFormat>)
        ensures
            final(self).formats() == old(self).formats(),
            handed == lookup(old(self).formats(), old(self).position()),
            final(self).position() == if handed is Some {
                old(self).position() + 1
            } else {
                old(self).position()
            },
            old(self).remaining() == match handed {
                Some(format) => seq![format] + final(self).remaining(),
                None => Seq::empty(),
            },
    {
        if let Some(next) = self.formats.get(self.index) {
            assert(self.index < self.formats.formats.len());
            self.index += 1;
            Some(next)
        } else {
            None
        }
    }
}

/// A walk from `position` hands out exactly the elements from `position`
/// to the end, in their order.
pub proof fn lemma_walk_is_rest(formats: Seq<PixelFormat>, position: nat)
    ensures
        walk(formats, position) == if position <= formats.len() {
            formats.skip(position as int)
        } else {
            Seq::empty()
        },
    decreases formats.len() - position,
{
    if position < formats.len() {
        lemma_walk_is_rest(formats, position + 1);
        assert(seq![formats[position as int]] + formats.skip(position as int + 1)
            =~= formats.skip(position as int));
    } else if position == formats.len() {
        assert(formats.skip(position as int) =~= Seq::<PixelFormat>::empty());
    }
}

/// A checked lookup finds the element at every index below the length, and
/// nothing at the length and at every index beyond it.
pub proof fn lemma_lookup_in_and_out_of_range(formats: Seq<PixelFormat>, index: nat)
    ensures
        index < formats.len() ==> lookup(formats, index) == Some(formats[index as int]),
        index >= formats.len() ==> lookup(formats, index) is None,
{
}

/// A walk from the front hands out as many formats as the collection holds,
/// in index order, each one the format that a checked lookup finds at its
/// index.
pub proof fn lemma_walk_follows_lookups(formats: Seq<PixelFormat>)
    ensures
        walk(formats, 0) == formats,
        walk(formats, 0).len() == formats.len(),
        forall|index: nat|
            index < formats.len() ==> lookup(formats, index) == Some(
                #[trigger] walk(formats, 0)[index as int],
            ),
{
    lemma_walk_is_rest(formats, 0);
}

/// Two fresh cursors over one collection hand out the same formats: a walk
/// can be started over as often as wanted.
pub proof fn lemma_fresh_cursors_agree(first: PixelFormatsIterator, second: PixelFormatsIterator)
    requires
        first.formats() == second.formats(),
        first.position() == 0,
        second.position() == 0,
    ensures
        first.remaining() == second.remaining(),
        first.remaining() == first.formats(),
{
    lemma_walk_is_rest(first.formats(), 0);
}

/// An empty collection has nothing at index 0, and a walk over it hands out
/// nothing.
pub proof fn lemma_empty_collection(formats: Seq<PixelFormat>)
    requires
        formats.len() == 0,
    ensures
        lookup(formats, 0) is None,
        walk(formats, 0) == Seq::<PixelFormat>::empty(),
{
}

} // verus!

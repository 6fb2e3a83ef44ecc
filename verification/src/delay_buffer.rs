use std::collections::VecDeque;
use vstd::pervasive::cloned;
use vstd::prelude::*;

verus! {

/// A buffer that enables elements to be retrieved after a specified delay after
/// they were put inside. The delay is measured in number of elements being
/// pushed.
#[derive(Debug)]
pub struct DelayBuffer<T: Default + Clone> {
    buf: VecDeque<T>,
    /// If set to `true`, the buffer behaves as a 0-sized buffer.
    immediate: bool,
}

/// One shift of a delay line: the oldest element leaves, `item` enters.
pub open spec fn shift_spec<T>(contents: Seq<T>, item: T) -> (T, Seq<T>) {
    (contents[0], contents.drop_first().push(item))
}

/// Shifting `items` one by one into a delay line holding `contents`: the
/// elements that come out, and what the line holds afterwards.
pub open spec fn shift_all<T>(contents: Seq<T>, items: Seq<T>) -> (Seq<T>, Seq<T>)
    decreases items.len(),
{
    if items.len() == 0 {
        (Seq::empty(), contents)
    } else {
        let (outputs, rest) = shift_all(contents, items.drop_last());
        let (out, next) = shift_spec(rest, items.last());
        (outputs.push(out), next)
    }
}

/// Delay law: pushing `items` through a delay line of `n >= 1` elements gives
/// back the elements it held, then the items themselves, each exactly `n`
/// shifts after it went in; the line then holds the last `n` of them.
pub proof fn lemma_delay<T>(contents: Seq<T>, items: Seq<T>)
    requires
        contents.len() >= 1,
    ensures
        shift_all(contents, items).0 == (contents + items).take(items.len() as int),
        shift_all(contents, items).1 == (contents + items).skip(items.len() as int),
    decreases items.len(),
{
    if items.len() > 0 {
        let front = items.drop_last();
        lemma_delay(contents, front);
        let all = contents + items;
        assert(contents + front == all.take(all.len() - 1));
        let (outputs, rest) = shift_all(contents, front);
        assert(rest == all.take(all.len() - 1).skip(front.len() as int));
        assert(rest.len() == contents.len());
        assert(outputs.push(rest[0]) == all.take(items.len() as int));
        assert(rest.drop_first().push(items.last()) == all.skip(items.len() as int));
    }
}

impl<T: Default + Clone> DelayBuffer<T> {
    /// The elements in the buffer, oldest first.
    pub closed spec fn contents(&self) -> Seq<T> {
        self.buf@
    }

    /// Whether the buffer behaves as a 0-sized one.
    pub closed spec fn is_immediate(&self) -> bool {
        self.immediate
    }

    /// The buffer always holds at least one element; a 0-sized one holds
    /// exactly one, the last item shifted in.
    pub open spec fn wf(&self) -> bool {
        &&& self.contents().len() >= 1
        &&& self.is_immediate() ==> self.contents().len() == 1
    }

    /// Creates a new `DelayBuffer` with a given size. The size determines the
    /// delay. It starts filled with default values.
    pub fn new(size: usize) -> (r: Self)
        ensures
            r.wf(),
            r.contents().len() == if size == 0 {
                1
            } else {
                size
            },
            r.is_immediate() == (size == 0),
            forall|i: int|
                0 <= i < r.contents().len() ==> call_ensures(T::default, (), #[trigger] r.contents()[i]),
    {
        let n = if size > 1 {
            size
        } else {
            1
        };
        let mut buf: VecDeque<T> = VecDeque::new();
        let mut i: usize = 0;
        while i < n
            invariant
                i <= n,
                buf@.len() == i,
                forall|j: int| 0 <= j < i ==> call_ensures(T::default, (), #[trigger] buf@[j]),
            decreases n - i,
        {
            buf.push_back(T::default());
            i = i + 1;
        }
        Self { buf, immediate: size == 0 }
    }

    /// Adds an item to the buffer, and retrieves the oldest item. A 0-sized
    /// buffer gives back the item itself and keeps a clone of it.
    pub fn shift(&mut self, item: T) -> (r: T)
        requires
            old(self).wf(),
        ensures
            final(self).wf(),
            final(self).is_immediate() == old(self).is_immediate(),
            !old(self).is_immediate() ==> (r, final(self).contents()) == shift_spec(
                old(self).contents(),
                item,
            ),
            old(self).is_immediate() ==> r == item && final(self).contents().len() == 1 && cloned(
                item,
                final(self).contents()[0],
            ),
    {
        let output = match self.buf.pop_front() {
            Some(output) => output,
            None => {
                assert(false);
                T::default()
            },
        };
        if self.immediate {
            self.buf.push_back(item.clone());
            item
        } else {
            self.buf.push_back(item);
            output
        }
    }

    /// Peeks the oldest item in the buffer.
    pub fn peek(&self) -> (r: &T)
        requires
            self.wf(),
        ensures
            *r == self.contents()[0],
    {
        &self.buf[0]
    }
}

} // verus!

//! Draining a pull-based producer of values into a vector.

use vstd::prelude::*;

verus! {

/// A pull-based source of values: each call to `produce` either yields the
/// next value or signals the end of the stream. The ghost `upcoming`
/// sequence holds the values the producer has yet to yield, in yield order,
/// so callers can speak about exactly what a drain of the producer emits.
pub trait Producer {
    type Item;

    /// The values this producer has yet to yield, next value first.
    spec fn upcoming(&self) -> Seq<Self::Item>;

    /// Yields the next value, or `None` to signal the end of the stream.
    fn produce(&mut self) -> (r: Option<Self::Item>)
        ensures
            old(self).upcoming().len() == 0 ==> r is None
                && final(self).upcoming() == old(self).upcoming(),
            old(self).upcoming().len() > 0 ==> r == Some(old(self).upcoming().first())
                && final(self).upcoming() == old(self).upcoming().drop_first(),
    ;
}

/// Repeatedly invokes the producer, collecting each yielded value until the
/// end of the stream is signalled.
///
/// The collected vector holds exactly the values the producer had yet to
/// yield, in yield order, and the producer is left with nothing more to
/// yield.
pub fn accumulate<P: Producer>(producer: &mut P) -> (result: Vec<P::Item>)
    ensures
        result@ == old(producer).upcoming(),
        final(producer).upcoming() == Seq::<P::Item>::empty(),
{
    let mut result: Vec<P::Item> = Vec::new();
    loop
        invariant
            result@ + producer.upcoming() == old(producer).upcoming(),
        ensures
            result@ + producer.upcoming() == old(producer).upcoming(),
            producer.upcoming().len() == 0,
        decreases producer.upcoming().len(),
    {
        match producer.produce() {
            Some(r) => {
                result.push(r);
            },
            None => {
                break;
            },
        }
    }
    result
}

/// Law: draining a producer that immediately signals the end of its stream
/// collects nothing — with no upcoming values, the collected sequence is
/// empty.
pub proof fn lemma_no_upcoming_collects_nothing<A>(upcoming: Seq<A>, collected: Seq<A>)
    requires
        collected == upcoming,
        upcoming.len() == 0,
    ensures
        collected == Seq::<A>::empty(),
{
    assert(collected =~= Seq::<A>::empty());
}

/// A producer that drains a last-in-first-out stack: each `produce` pops and
/// yields the top of the stack, and the end of the stream is signalled once
/// the stack is empty.
pub struct StackProducer<T> {
    stack: Vec<T>,
}

impl<T> StackProducer<T> {
    /// Wraps a stack so that its elements are yielded top of the stack
    /// first.
    pub fn new(stack: Vec<T>) -> (p: Self)
        ensures
            p.upcoming() == stack@.reverse(),
    {
        StackProducer { stack }
    }

    /// Hands the not-yet-yielded rest of the stack back, bottom first.
    pub fn into_stack(self) -> (v: Vec<T>)
        ensures
            v@ == self.upcoming().reverse(),
    {
        proof {
            assert(self.stack@.reverse().reverse() =~= self.stack@);
        }
        self.stack
    }
}

impl<T> Producer for StackProducer<T> {
    type Item = T;

    closed spec fn upcoming(&self) -> Seq<T> {
        self.stack@.reverse()
    }

    fn produce(&mut self) -> (r: Option<T>)
    {
        let r = self.stack.pop();
        proof {
            if old(self).stack@.len() > 0 {
                assert(self.stack@ =~= old(self).stack@.drop_last());
                assert(old(self).upcoming().first() == old(self).stack@.last());
                assert(self.stack@.reverse() =~= old(self).stack@.reverse().drop_first());
            }
        }
        r
    }
}

} // verus!

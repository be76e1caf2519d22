//! Effects that a module's update logic asks the host to perform, and the
//! queue they wait in.

use vstd::prelude::*;
use std::collections::VecDeque;

verus! {

/// An effect: nothing, or a value ready to be handed back to the module.
#[derive(Clone, Debug)]
pub enum Effect<T> {
    Noop,
    Wrapped(T),
}

impl<T> Effect<T> {
    /// The effect that does nothing.
    pub fn none() -> (r: Effect<T>)
        ensures
            r is Noop,
    {
        Effect::Noop
    }

    /// The effect that yields `data`.
    pub fn wrapped(data: T) -> (r: Effect<T>)
        ensures
            r == Effect::Wrapped(data),
    {
        Effect::Wrapped(data)
    }

    /// Whether `effect` does nothing.
    pub fn is_none(effect: &Effect<T>) -> (r: bool)
        ensures
            r == effect is Noop,
    {
        match effect {
            Effect::Noop => true,
            Effect::Wrapped(_) => false,
        }
    }
}

/// Effects waiting to be performed, oldest first.
pub struct EffectQueue<T> {
    queue: VecDeque<Effect<T>>,
}

impl<T> View for EffectQueue<T> {
    type V = Seq<Effect<T>>;

    /// The waiting effects, oldest first.
    closed spec fn view(&self) -> Seq<Effect<T>> {
        self.queue@.reverse()
    }
}

impl<T> EffectQueue<T> {
    /// An empty queue.
    pub fn new() -> (r: EffectQueue<T>)
        ensures
            r@ == Seq::<Effect<T>>::empty(),
    {
        let r = EffectQueue { queue: VecDeque::new() };
        assert(r@ =~= Seq::<Effect<T>>::empty());
        r
    }

    /// The number of waiting effects, as far as an `i32` holds it.
    pub fn count(effect_queue: &EffectQueue<T>) -> (r: i32)
        ensures
            r as int == if effect_queue@.len() <= i32::MAX {
                effect_queue@.len() as int
            } else {
                i32::MAX as int
            },
    {
        let n = effect_queue.queue.len();
        if n <= i32::MAX as usize {
            n as i32
        } else {
            i32::MAX
        }
    }

    /// Puts `effect` at the end of the queue; an effect that does nothing is
    /// dropped.
    pub fn enqueue(effect_queue: &mut EffectQueue<T>, effect: Effect<T>)
        ensures
            final(effect_queue)@ == if effect is Noop {
                old(effect_queue)@
            } else {
                old(effect_queue)@.push(effect)
            },
    {
        if !Effect::is_none(&effect) {
            let ghost e = effect;
            effect_queue.queue.push_front(effect);
            assert(final(effect_queue)@ =~= old(effect_queue)@.push(e));
        }
    }

    /// Takes the oldest waiting effect, if any.
    pub fn dequeue(effect_queue: &mut EffectQueue<T>) -> (r: Option<Effect<T>>)
        ensures
            old(effect_queue)@.len() == 0 ==> r is None && final(effect_queue)@
                == old(effect_queue)@,
            old(effect_queue)@.len() > 0 ==> r == Some(old(effect_queue)@[0])
                && final(effect_queue)@ == old(effect_queue)@.drop_first(),
    {
        let r = effect_queue.queue.pop_back();
        assert(old(effect_queue)@.len() > 0 ==> final(effect_queue)@
            =~= old(effect_queue)@.drop_first());
        r
    }
}

} // verus!

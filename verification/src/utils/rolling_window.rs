//! A window over the most recent values of a stream: once `max_size` values
//! are held, adding another one drops the oldest.

use vstd::prelude::*;

verus! {

pub struct RollingWindow<T> {
    pub window: Vec<T>,
    pub max_size: usize,
}

impl<T> View for RollingWindow<T> {
    type V = Seq<T>;

    open spec fn view(&self) -> Seq<T> {
        self.window@
    }
}

impl<T> RollingWindow<T> {
    pub fn new(max_size: usize) -> (r: Self)
        ensures
            r@ == Seq::<T>::empty(),
            r.max_size == max_size,
    {
        RollingWindow { window: Vec::with_capacity(max_size), max_size }
    }

    pub fn add(&mut self, value: T)
        ensures
            final(self).max_size == old(self).max_size,
            final(self)@ == if old(self)@.len() == old(self).max_size && old(self)@.len() > 0 {
                old(self)@.drop_first().push(value)
            } else {
                old(self)@.push(value)
            },
    {
        if self.window.len() == self.max_size && self.window.len() > 0 {
            let _ = self.window.remove(0);
        }
        self.window.push(value);
        proof {
            if old(self)@.len() == old(self).max_size && old(self)@.len() > 0 {
                assert(self@ =~= old(self)@.drop_first().push(value));
            }
        }
    }

    pub fn as_slice(&self) -> (r: &[T])
        ensures
            r@ == self@,
    {
        self.window.as_slice()
    }

    pub fn get(&self, n: usize) -> (r: Option<&T>)
        ensures
            r == if n < self@.len() {
                Some(&self@[n as int])
            } else {
                None::<&T>
            },
    {
        if n < self.window.len() {
            Some(&self.window[n])
        } else {
            None
        }
    }
}

} // verus!

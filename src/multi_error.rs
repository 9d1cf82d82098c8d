//! Several failures of one logical operation, reported together.
use vstd::prelude::*;

verus! {

/// A collection of errors under one message, optionally bounded: once it
/// holds `max_errors` errors it is handed back as a failure of its own.
#[derive(Clone, Debug)]
pub struct MultiError<E> {
    pub msg: &'static str,
    pub errors: Vec<E>,
    pub max_errors: Option<usize>,
}

/// What a list of errors amounts to when it is not empty.
#[derive(Clone, Debug)]
pub enum Failure<E> {
    /// The list held exactly this one error.
    One(E),
    /// The list held two errors or more.
    Many(MultiError<E>),
}

impl<E> MultiError<E> {
    pub fn with_max_errors(msg: &'static str, max_errors: usize) -> (r: MultiError<E>)
        ensures
            r.msg == msg,
            r.errors@ == Seq::<E>::empty(),
            r.max_errors == Some(max_errors),
    {
        MultiError { msg, errors: Vec::new(), max_errors: Some(max_errors) }
    }

    /// Records one more error. When that brings the count to the bound, the
    /// errors gathered so far leave as an unbounded `MultiError` and this one
    /// starts empty again.
    pub fn push_error(&mut self, error: E) -> (r: Result<(), MultiError<E>>)
        ensures
            final(self).msg == old(self).msg,
            final(self).max_errors == old(self).max_errors,
            ({
                let pushed = old(self).errors@.push(error);
                if old(self).max_errors matches Some(m) && pushed.len() >= m {
                    &&& r matches Err(full)
                    &&& full.errors@ == pushed
                    &&& full.msg == old(self).msg
                    &&& full.max_errors is None
                    &&& final(self).errors@ == Seq::<E>::empty()
                } else {
                    r is Ok && final(self).errors@ == pushed
                }
            }),
    {
        self.errors.push(error);
        if let Some(max_errors) = self.max_errors {
            if self.errors.len() >= max_errors {
                let mut errors: Vec<E> = Vec::new();
                std::mem::swap(&mut errors, &mut self.errors);
                return Err(MultiError { msg: self.msg, errors, max_errors: None });
            }
        }
        Ok(())
    }

    pub fn clear(&mut self)
        ensures
            final(self).msg == old(self).msg,
            final(self).max_errors == old(self).max_errors,
            final(self).errors@ == Seq::<E>::empty(),
    {
        self.errors.clear();
    }

    /// No error is success; a single error stands for itself; more are
    /// gathered under `msg`.
    pub fn from_vec(errors: Vec<E>, msg: &'static str) -> (r: Result<(), Failure<E>>)
        ensures
            r is Ok <==> errors@.len() == 0,
            errors@.len() == 1 ==> (r matches Err(Failure::One(e)) && e == errors@[0]),
            errors@.len() >= 2 ==> (r matches Err(Failure::Many(m)) && m.errors@ == errors@
                && m.msg == msg && m.max_errors is None),
    {
        if errors.len() == 0 {
            return Ok(());
        }
        if errors.len() == 1 {
            let mut errors = errors;
            let e = errors.pop().unwrap();
            return Err(Failure::One(e));
        }
        Err(Failure::Many(MultiError { msg, errors, max_errors: None }))
    }
}

} // verus!

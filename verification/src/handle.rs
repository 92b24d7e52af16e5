use vstd::prelude::*;
use crate::errors::WinThingError;

verus! {

/// One native resource token. It is either live, and then stands for exactly
/// one non-null native identifier, or spent.
#[derive(Debug)]
pub struct EvtHandle {
    raw: usize,
    live: bool,
}

impl EvtHandle {
    /// The native identifier this handle still owns, if any.
    pub closed spec fn token(&self) -> Option<usize> {
        if self.live && self.raw != 0 {
            Some(self.raw)
        } else {
            None
        }
    }

    /// What `open` makes of the answer of a native open call.
    pub open spec fn opened(reply: Result<usize, u32>) -> Result<usize, WinThingError> {
        match reply {
            Ok(raw) => if raw == 0 {
                Err(WinThingError::NullHandle)
            } else {
                Ok(raw)
            },
            Err(code) => Err(WinThingError::Native { code }),
        }
    }

    /// Takes ownership of what a native open call answered: the identifier it
    /// returned, or the system error code it failed with.
    pub fn open(reply: Result<usize, u32>) -> (out: Result<EvtHandle, WinThingError>)
        ensures
            match out {
                Ok(h) => Self::opened(reply) == Ok::<usize, WinThingError>(h.token().unwrap())
                    && h.token().is_some(),
                Err(e) => Self::opened(reply) == Err::<usize, WinThingError>(e),
            },
    {
        match reply {
            Ok(raw) => {
                if raw == 0 {
                    Err(WinThingError::NullHandle)
                } else {
                    Ok(EvtHandle { raw, live: true })
                }
            },
            Err(code) => Err(WinThingError::Native { code }),
        }
    }

    /// The handle that owns nothing.
    pub fn null() -> (h: EvtHandle)
        ensures
            h.token().is_none(),
    {
        EvtHandle { raw: 0, live: false }
    }

    /// Whether the handle still owns a native identifier.
    pub fn is_valid(&self) -> (valid: bool)
        ensures
            valid == self.token().is_some(),
    {
        self.live && self.raw != 0
    }

    /// The native identifier to pass to a native call, while the handle is live.
    pub fn raw(&self) -> (raw: Option<usize>)
        ensures
            raw == self.token(),
    {
        if self.live && self.raw != 0 {
            Some(self.raw)
        } else {
            None
        }
    }

    /// Gives up the native identifier. The caller releases what is returned;
    /// a handle that was already closed returns nothing, so no identifier is
    /// ever handed out for release twice.
    pub fn close(&mut self) -> (released: Option<usize>)
        ensures
            released == old(self).token(),
            final(self).token().is_none(),
    {
        let released = self.raw();
        self.live = false;
        released
    }
}

} // verus!

//! How a panel changes a setting.
//!
//! Every panel works on the one document that the application shares, and
//! the shell may rewrite the file at any time. So a panel never changes the
//! shared document in place: it loads the file afresh, changes the fresh
//! copy, saves it, and only when the save succeeded puts the copy in the
//! place of the shared document and asks for the shell to be told.

use vstd::prelude::*;
use crate::config::ColorConfig;
use crate::error::ConfigError;

verus! {

/// What a panel does after its save has returned.
#[derive(Debug, Clone, Copy, PartialEq, Eq, Structural)]
pub enum Followup {
    /// Tell the shell of the change, after this many milliseconds.
    Notify { delay_ms: u32 },
    /// Nothing: the save failed, and there is nothing to tell.
    Nothing,
}

impl ColorConfig {
    /// Concludes a change. `self` is the shared document, `changed` the copy
    /// that was loaded afresh, changed and saved, and `saved` the result of
    /// that save. After a save that succeeded the shared document is the
    /// copy, and the shell is to be told after `delay_ms` milliseconds.
    /// After one that failed the shared document is as it was, so that no
    /// panel shows a value that is not in the file, and the shell is not
    /// told.
    pub fn commit(&mut self, changed: ColorConfig, saved: Result<(), ConfigError>, delay_ms: u32) -> (r: Followup)
        ensures
            saved is Ok ==> final(self)@ == changed@ && r == (Followup::Notify { delay_ms }),
            saved is Err ==> final(self)@ == old(self)@ && r == Followup::Nothing,
    {
        match saved {
            Ok(_) => {
                *self = changed;
                Followup::Notify { delay_ms }
            },
            Err(_) => Followup::Nothing,
        }
    }
}

/// The result of writing a notice, as the store reports it.
pub fn notice_result(written: bool) -> (r: Result<(), ConfigError>)
    ensures
        written ==> r is Ok,
        !written ==> r == Err::<(), ConfigError>(ConfigError::Notify),
{
    if written {
        Ok(())
    } else {
        Err(ConfigError::Notify)
    }
}

/// The result of a change as a whole: that of its save. What became of the
/// notice does not count; `noticed` is `None` where none was written.
pub open spec fn change_outcome(saved: Result<(), ConfigError>, noticed: Option<Result<(), ConfigError>>) -> Result<
    (),
    ConfigError,
> {
    saved
}

/// The result of a change as a whole: that of its save, whatever became of
/// the notice.
pub fn change_result(saved: Result<(), ConfigError>, noticed: Option<Result<(), ConfigError>>) -> (r: Result<
    (),
    ConfigError,
>)
    ensures
        r == change_outcome(saved, noticed),
{
    saved
}

} // verus!

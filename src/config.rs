use vstd::prelude::*;

use crate::message::Identity;

verus! {

/// The cursor that starts a walk at the beginning of the history.
pub open spec fn default_start() -> Seq<char> {
    seq!['0']
}

/// What one run works on, with every default filled in.
pub struct RunConfiguration {
    pub channel_id: String,
    pub token: String,
    /// The cursor the walk starts after.
    pub start: String,
    /// The author whose messages are deleted.
    pub target: String,
    /// Ids of messages that are kept whatever else holds.
    pub excluded: Vec<String>,
}

impl RunConfiguration {
    /// Fills in the defaults: the walk starts at "0", the target is the
    /// account itself, and no id is excluded.
    pub fn resolve(
        channel_id: String,
        token: String,
        start: Option<String>,
        target: Option<String>,
        excluded: Option<Vec<String>>,
        identity: &Identity,
    ) -> (r: RunConfiguration)
        ensures
            r.channel_id == channel_id,
            r.token == token,
            start is Some ==> r.start == start->0,
            start is None ==> r.start@ == default_start(),
            target is Some ==> r.target == target->0,
            target is None ==> r.target@ == identity.id@,
            excluded is Some ==> r.excluded == excluded->0,
            excluded is None ==> r.excluded@.len() == 0,
    {
        let start = match start {
            Some(s) => s,
            None => {
                proof {
                    reveal_strlit("0");
                }
                let s = "0".to_owned();
                assert(s@ =~= default_start());
                s
            },
        };
        let target = match target {
            Some(t) => t,
            None => identity.id.clone(),
        };
        let excluded = match excluded {
            Some(e) => e,
            None => Vec::new(),
        };
        RunConfiguration { channel_id, token, start, target, excluded }
    }
}

} // verus!

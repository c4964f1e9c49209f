//! Tag management of the configuration API. Tags are visibility groups:
//! zero or more can be shown per output, and each window carries zero or
//! more of them. The lookups here run over the per-tag records the
//! compositor answers queries with.

use vstd::prelude::*;

use crate::api_output::OutputHandle;
use crate::api_signal::{SignalHandle, SignalRegistry, TagSignal};

verus! {

/// A handle to a tag, identified by its compositor id.
#[derive(Clone, Copy, Debug, PartialEq, Eq, Hash, Structural)]
pub struct TagHandle {
    pub id: u32,
}

/// What the compositor knows about one tag: its name, the output it sits
/// on, and whether it is active.
#[derive(Clone, Debug)]
pub struct TagRecord {
    pub handle: TagHandle,
    pub name: String,
    pub output: OutputHandle,
    pub active: bool,
}

/// Handles for the tag ids the compositor answered with, in order.
pub fn get_all(ids: Vec<u32>) -> (r: Vec<TagHandle>)
    ensures
        r@.len() == ids@.len(),
        forall|i: int| 0 <= i < ids@.len() ==> (#[trigger] r@[i]).id == ids@[i],
{
    let mut r: Vec<TagHandle> = Vec::new();
    let mut i: usize = 0;
    while i < ids.len()
        invariant
            i <= ids@.len(),
            r@.len() == i,
            forall|k: int| 0 <= k < i ==> (#[trigger] r@[k]).id == ids@[k],
        decreases ids@.len() - i,
    {
        r.push(TagHandle { id: ids[i] });
        i = i + 1;
    }
    r
}

/// The first record matching a name on a given output.
pub open spec fn spec_tag_lookup(name: Seq<char>, output: Seq<char>, tags: Seq<TagRecord>, i: int) -> bool {
    &&& 0 <= i < tags.len()
    &&& tags[i].name@ == name
    &&& tags[i].output.name@ == output
    &&& forall|k: int|
        0 <= k < i ==> !((#[trigger] tags[k]).name@ == name && tags[k].output.name@ == output)
}

/// Finds the first tag with the given name on the given output.
pub fn get_on_output(name: &String, output: &OutputHandle, tags: &Vec<TagRecord>) -> (r: Option<
    TagHandle,
>)
    ensures
        match r {
            Some(h) => exists|i: int|
                spec_tag_lookup(name@, output.name@, tags@, i) && h == tags@[i].handle,
            None => forall|k: int|
                0 <= k < tags@.len() ==> !((#[trigger] tags@[k]).name@ == name@
                    && tags@[k].output.name@ == output.name@),
        },
{
    let mut i: usize = 0;
    while i < tags.len()
        invariant
            i <= tags@.len(),
            forall|k: int|
                0 <= k < i ==> !((#[trigger] tags@[k]).name@ == name@ && tags@[k].output.name@
                    == output.name@),
        decreases tags@.len() - i,
    {
        if tags[i].name.eq(name) && tags[i].output.name.eq(&output.name) {
            proof {
                assert(spec_tag_lookup(name@, output.name@, tags@, i as int));
            }
            return Some(tags[i].handle);
        }
        i = i + 1;
    }
    None
}

/// Finds the first tag with the given name on the focused output, if one
/// output is focused.
pub fn get(name: &String, focused: Option<&OutputHandle>, tags: &Vec<TagRecord>) -> (r: Option<
    TagHandle,
>)
    ensures
        match focused {
            None => r is None,
            Some(op) => match r {
                Some(h) => exists|i: int|
                    spec_tag_lookup(name@, op.name@, tags@, i) && h == tags@[i].handle,
                None => forall|k: int|
                    0 <= k < tags@.len() ==> !((#[trigger] tags@[k]).name@ == name@
                        && tags@[k].output.name@ == op.name@),
            },
        },
{
    match focused {
        Some(op) => get_on_output(name, op, tags),
        None => None,
    }
}

/// Registers a callback for a tag signal and hands back its token.
pub fn connect_signal(signal: TagSignal, registry: &mut SignalRegistry) -> (r: SignalHandle)
    requires
        old(registry).next_token < u64::MAX,
        old(registry).tag_active < u64::MAX,
    ensures
        r.token == old(registry).next_token,
        final(registry).next_token == old(registry).next_token + 1,
        signal is Active ==> final(registry).tag_active == old(registry).tag_active + 1,
        final(registry).output_connect == old(registry).output_connect,
        final(registry).output_disconnect == old(registry).output_disconnect,
        final(registry).output_resize == old(registry).output_resize,
        final(registry).output_move == old(registry).output_move,
{
    let token = registry.next_token;
    registry.next_token = registry.next_token + 1;
    match signal {
        TagSignal::Active => {
            registry.tag_active = registry.tag_active + 1;
        },
    }
    SignalHandle { token }
}

impl TagHandle {
    /// Whether this tag is active, per the compositor's records. The
    /// records must know the tag.
    pub fn active(&self, tags: &Vec<TagRecord>) -> (r: bool)
        requires
            exists|i: int| 0 <= i < tags@.len() && (#[trigger] tags@[i]).handle.id == self.id,
        ensures
            exists|i: int|
                {
                    &&& 0 <= i < tags@.len()
                    &&& (#[trigger] tags@[i]).handle.id == self.id
                    &&& (forall|k: int| 0 <= k < i ==> (#[trigger] tags@[k]).handle.id != self.id)
                    &&& r == tags@[i].active
                },
    {
        let mut i: usize = 0;
        while i < tags.len()
            invariant
                i <= tags@.len(),
                exists|k: int| 0 <= k < tags@.len() && (#[trigger] tags@[k]).handle.id == self.id,
                forall|k: int| 0 <= k < i ==> (#[trigger] tags@[k]).handle.id != self.id,
            decreases tags@.len() - i,
        {
            if tags[i].handle.id == self.id {
                return tags[i].active;
            }
            i = i + 1;
        }
        proof {
            assert(false);
        }
        false
    }

    /// This tag's name, per the compositor's records.
    pub fn name(&self, tags: &Vec<TagRecord>) -> (r: String)
        requires
            exists|i: int| 0 <= i < tags@.len() && (#[trigger] tags@[i]).handle.id == self.id,
        ensures
            exists|i: int|
                {
                    &&& 0 <= i < tags@.len()
                    &&& (#[trigger] tags@[i]).handle.id == self.id
                    &&& (forall|k: int| 0 <= k < i ==> (#[trigger] tags@[k]).handle.id != self.id)
                    &&& r@ == tags@[i].name@
                },
    {
        let mut i: usize = 0;
        while i < tags.len()
            invariant
                i <= tags@.len(),
                exists|k: int| 0 <= k < tags@.len() && (#[trigger] tags@[k]).handle.id == self.id,
                forall|k: int| 0 <= k < i ==> (#[trigger] tags@[k]).handle.id != self.id,
            decreases tags@.len() - i,
        {
            if tags[i].handle.id == self.id {
                return tags[i].name.clone();
            }
            i = i + 1;
        }
        proof {
            assert(false);
        }
        String::new()
    }

    /// A handle to the output this tag sits on, per the records.
    pub fn output(&self, tags: &Vec<TagRecord>) -> (r: OutputHandle)
        requires
            exists|i: int| 0 <= i < tags@.len() && (#[trigger] tags@[i]).handle.id == self.id,
        ensures
            exists|i: int|
                {
                    &&& 0 <= i < tags@.len()
                    &&& (#[trigger] tags@[i]).handle.id == self.id
                    &&& (forall|k: int| 0 <= k < i ==> (#[trigger] tags@[k]).handle.id != self.id)
                    &&& r.name@ == tags@[i].output.name@
                },
    {
        let mut i: usize = 0;
        while i < tags.len()
            invariant
                i <= tags@.len(),
                exists|k: int| 0 <= k < tags@.len() && (#[trigger] tags@[k]).handle.id == self.id,
                forall|k: int| 0 <= k < i ==> (#[trigger] tags@[k]).handle.id != self.id,
            decreases tags@.len() - i,
        {
            if tags[i].handle.id == self.id {
                return OutputHandle { name: tags[i].output.name.clone() };
            }
            i = i + 1;
        }
        proof {
            assert(false);
        }
        OutputHandle { name: String::new() }
    }

    /// This tag's raw compositor id.
    pub fn id(&self) -> (r: u32)
        ensures
            r == self.id,
    {
        self.id
    }
}

} // verus!

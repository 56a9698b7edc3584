use vstd::prelude::*;
use crate::format::{spec_host_format, spec_intermediate_format, BitDepth, PixelFormat};

verus! {

/// What a cached texture was allocated for: a texture is reused only while
/// this key still matches the request.
#[derive(Clone, Copy, Debug, PartialEq, Eq, Structural)]
pub struct TextureKey {
    pub width: u32,
    pub height: u32,
    pub format: PixelFormat,
}

/// A cached GPU object together with the key it was made for.
pub struct Slot<T> {
    pub key: TextureKey,
    pub handle: T,
}

/// A cached input texture, registered with the main shader under `name`.
pub struct NamedSlot<T> {
    pub name: String,
    pub key: TextureKey,
    pub handle: T,
}

/// The last entry named `name`.
pub open spec fn entry_of<T>(s: Seq<NamedSlot<T>>, name: Seq<char>) -> Option<NamedSlot<T>>
    decreases s.len(),
{
    if s.len() == 0 {
        None
    } else if s.last().name@ == name {
        Some(s.last())
    } else {
        entry_of(s.drop_last(), name)
    }
}

proof fn lemma_entry_of_update<T>(s: Seq<NamedSlot<T>>, i: int, e: NamedSlot<T>, name: Seq<char>)
    requires
        0 <= i < s.len(),
        e.name@ == s[i].name@,
        forall|j: int| i < j < s.len() ==> s[j].name@ != e.name@,
    ensures
        entry_of(s.update(i, e), name) == if name == e.name@ {
            Some(e)
        } else {
            entry_of(s, name)
        },
    decreases s.len(),
{
    let u = s.update(i, e);
    if i == s.len() - 1 {
        assert(u.drop_last() =~= s.drop_last());
    } else {
        assert(u.drop_last() =~= s.drop_last().update(i, e));
        lemma_entry_of_update(s.drop_last(), i, e, name);
    }
}

proof fn lemma_entry_of_absent<T>(s: Seq<NamedSlot<T>>, name: Seq<char>)
    requires
        forall|j: int| 0 <= j < s.len() ==> s[j].name@ != name,
    ensures
        entry_of(s, name) == None::<NamedSlot<T>>,
    decreases s.len(),
{
    if s.len() > 0 {
        lemma_entry_of_absent(s.drop_last(), name);
    }
}

proof fn lemma_entry_of_last<T>(s: Seq<NamedSlot<T>>, i: int, name: Seq<char>)
    requires
        0 <= i < s.len(),
        s[i].name@ == name,
        forall|j: int| i < j < s.len() ==> s[j].name@ != name,
    ensures
        entry_of(s, name) == Some(s[i]),
    decreases s.len(),
{
    if i < s.len() - 1 {
        lemma_entry_of_last(s.drop_last(), i, name);
    }
}

/// Size and format of the main-stage target for a render of `width` x `height`.
pub open spec fn spec_target_key(width: u32, height: u32, depth: BitDepth) -> TextureKey {
    TextureKey { width, height, format: spec_intermediate_format(depth) }
}

/// Size and format of the texture the egress stage writes in the host's format.
pub open spec fn spec_final_key(width: u32, height: u32, depth: BitDepth) -> TextureKey {
    TextureKey { width, height, format: spec_host_format(depth) }
}

pub fn target_key(width: u32, height: u32, depth: BitDepth) -> (r: TextureKey)
    ensures
        r == spec_target_key(width, height, depth),
{
    TextureKey { width, height, format: depth.intermediate_format() }
}

pub fn final_key(width: u32, height: u32, depth: BitDepth) -> (r: TextureKey)
    ensures
        r == spec_final_key(width, height, depth),
{
    TextureKey { width, height, format: depth.host_format() }
}

/// Per-sequence cache of GPU objects: the render target, the host-format final
/// texture, the readback staging buffer and one texture per image input.
/// `T` is the texture handle and `B` the buffer handle.
pub struct ResourceCache<T, B> {
    target: Option<Slot<T>>,
    final_target: Option<Slot<T>>,
    staging: Option<(u64, B)>,
    inputs: Vec<NamedSlot<T>>,
}

impl<T, B> ResourceCache<T, B> {
    pub closed spec fn target_key(&self) -> Option<TextureKey> {
        match self.target {
            Some(s) => Some(s.key),
            None => None,
        }
    }

    pub closed spec fn final_key(&self) -> Option<TextureKey> {
        match self.final_target {
            Some(s) => Some(s.key),
            None => None,
        }
    }

    pub closed spec fn staging_len(&self) -> Option<u64> {
        match self.staging {
            Some(s) => Some(s.0),
            None => None,
        }
    }

    /// The key of the cached input texture registered under `name`, if any.
    pub closed spec fn input_key(&self, name: Seq<char>) -> Option<TextureKey> {
        match entry_of(self.inputs@, name) {
            Some(e) => Some(e.key),
            None => None,
        }
    }

    /// The texture cached for `name`, if any.
    pub closed spec fn input_handle(&self, name: Seq<char>) -> Option<T> {
        match entry_of(self.inputs@, name) {
            Some(e) => Some(e.handle),
            None => None,
        }
    }

    pub closed spec fn target_handle(&self) -> Option<T> {
        match self.target {
            Some(s) => Some(s.handle),
            None => None,
        }
    }

    pub closed spec fn final_handle(&self) -> Option<T> {
        match self.final_target {
            Some(s) => Some(s.handle),
            None => None,
        }
    }

    pub closed spec fn staging_handle(&self) -> Option<B> {
        match self.staging {
            Some(s) => Some(s.1),
            None => None,
        }
    }

    /// Whether a render of `width` x `height` can reuse the cached targets.
    pub open spec fn spec_target_hit(&self, width: u32, height: u32) -> bool {
        self.target_key() matches Some(k) && k.width == width && k.height == height
    }

    /// An empty cache: everything is allocated on first use.
    pub fn new() -> (r: Self)
        ensures
            r.target_key() == None::<TextureKey>,
            r.final_key() == None::<TextureKey>,
            r.staging_len() == None::<u64>,
            forall|n: Seq<char>| r.input_key(n) == None::<TextureKey>,
            forall|n: Seq<char>| r.input_handle(n) == None::<T>,
    {
        ResourceCache { target: None, final_target: None, staging: None, inputs: Vec::new() }
    }

    /// Whether the cached target has the requested dimensions.
    pub fn target_hit(&self, width: u32, height: u32) -> (r: bool)
        ensures
            r == self.spec_target_hit(width, height),
    {
        match &self.target {
            Some(s) => s.key.width == width && s.key.height == height,
            None => false,
        }
    }

    /// Replaces both targets with newly allocated ones for `width` x `height` at `depth`.
    pub fn install_targets(&mut self, width: u32, height: u32, depth: BitDepth, target: T, final_target: T)
        ensures
            final(self).target_key() == Some(spec_target_key(width, height, depth)),
            final(self).final_key() == Some(spec_final_key(width, height, depth)),
            final(self).target_handle() == Some(target),
            final(self).final_handle() == Some(final_target),
            final(self).staging_len() == old(self).staging_len(),
            final(self).staging_handle() == old(self).staging_handle(),
            forall|n: Seq<char>| final(self).input_key(n) == old(self).input_key(n)
                && final(self).input_handle(n) == old(self).input_handle(n),
    {
        self.target = Some(Slot { key: target_key(width, height, depth), handle: target });
        self.final_target = Some(Slot { key: final_key(width, height, depth), handle: final_target });
    }

    pub fn target(&self) -> (r: Option<&T>)
        ensures
            r.is_some() == self.target_key().is_some(),
            r matches Some(h) ==> self.target_handle() == Some(*h),
    {
        match &self.target {
            Some(s) => Some(&s.handle),
            None => None,
        }
    }

    pub fn final_target(&self) -> (r: Option<&T>)
        ensures
            r.is_some() == self.final_key().is_some(),
            r matches Some(h) ==> self.final_handle() == Some(*h),
    {
        match &self.final_target {
            Some(s) => Some(&s.handle),
            None => None,
        }
    }

    /// Whether the cached staging buffer has exactly `size` bytes.
    pub fn staging_hit(&self, size: u64) -> (r: bool)
        ensures
            r == (self.staging_len() == Some(size)),
    {
        match &self.staging {
            Some(s) => s.0 == size,
            None => false,
        }
    }

    pub fn install_staging(&mut self, size: u64, buffer: B)
        ensures
            final(self).staging_len() == Some(size),
            final(self).staging_handle() == Some(buffer),
            final(self).target_key() == old(self).target_key(),
            final(self).final_key() == old(self).final_key(),
            final(self).target_handle() == old(self).target_handle(),
            final(self).final_handle() == old(self).final_handle(),
            forall|n: Seq<char>| final(self).input_key(n) == old(self).input_key(n)
                && final(self).input_handle(n) == old(self).input_handle(n),
    {
        self.staging = Some((size, buffer));
    }

    pub fn staging(&self) -> (r: Option<&B>)
        ensures
            r.is_some() == self.staging_len().is_some(),
            r matches Some(h) ==> self.staging_handle() == Some(*h),
    {
        match &self.staging {
            Some(s) => Some(&s.1),
            None => None,
        }
    }

    /// Index of the last entry named `name`.
    fn find_input(&self, name: &String) -> (r: Option<usize>)
        ensures
            r matches Some(i) ==> i < self.inputs@.len() && self.inputs@[i as int].name@ == name@
                && forall|j: int| i < j < self.inputs@.len() ==> self.inputs@[j].name@ != name@,
            r is None ==> forall|j: int| 0 <= j < self.inputs@.len() ==> self.inputs@[j].name@ != name@,
    {
        let mut k: usize = self.inputs.len();
        while k > 0
            invariant
                k <= self.inputs@.len(),
                forall|j: int| k <= j < self.inputs@.len() ==> self.inputs@[j].name@ != name@,
            decreases k,
        {
            if self.inputs[k - 1].name == *name {
                return Some(k - 1);
            }
            k = k - 1;
        }
        None
    }

    /// Whether the texture cached for `name` was made for exactly `key`.
    pub fn input_hit(&self, name: &String, key: TextureKey) -> (r: bool)
        ensures
            r == (self.input_key(name@) == Some(key)),
    {
        match self.find_input(name) {
            Some(i) => {
                proof {
                    lemma_entry_of_last(self.inputs@, i as int, name@);
                }
                self.inputs[i].key == key
            },
            None => {
                proof {
                    lemma_entry_of_absent(self.inputs@, name@);
                }
                false
            },
        }
    }

    /// The texture cached for `name`, if any.
    pub fn input(&self, name: &String) -> (r: Option<&T>)
        ensures
            r.is_some() == self.input_key(name@).is_some(),
            r matches Some(h) ==> self.input_handle(name@) == Some(*h),
    {
        match self.find_input(name) {
            Some(i) => {
                proof {
                    lemma_entry_of_last(self.inputs@, i as int, name@);
                }
                Some(&self.inputs[i].handle)
            },
            None => {
                proof {
                    lemma_entry_of_absent(self.inputs@, name@);
                }
                None
            },
        }
    }

    /// Caches `handle` for `name`, replacing whatever was cached under that name.
    pub fn install_input(&mut self, name: &String, key: TextureKey, handle: T)
        ensures
            final(self).input_key(name@) == Some(key),
            final(self).input_handle(name@) == Some(handle),
            forall|n: Seq<char>| n != name@ ==> final(self).input_key(n) == old(self).input_key(n)
                && final(self).input_handle(n) == old(self).input_handle(n),
            final(self).target_key() == old(self).target_key(),
            final(self).final_key() == old(self).final_key(),
            final(self).staging_len() == old(self).staging_len(),
            final(self).target_handle() == old(self).target_handle(),
            final(self).final_handle() == old(self).final_handle(),
            final(self).staging_handle() == old(self).staging_handle(),
    {
        let entry = NamedSlot { name: name.clone(), key, handle };
        match self.find_input(name) {
            Some(i) => {
                let ghost s = self.inputs@;
                proof {
                    assert forall|n: Seq<char>| #[trigger] entry_of(s.update(i as int, entry), n)
                        == if n == entry.name@ { Some(entry) } else { entry_of(s, n) } by {
                        lemma_entry_of_update(s, i as int, entry, n);
                    }
                }
                self.inputs.set(i, entry);
                assert(self.inputs@ == s.update(i as int, entry));
            },
            None => {
                let ghost s = self.inputs@;
                self.inputs.push(entry);
                assert(self.inputs@.drop_last() =~= s);
            },
        }
    }

    /// Drops every cached input texture.
    pub fn clear_inputs(&mut self)
        ensures
            forall|n: Seq<char>| final(self).input_key(n) == None::<TextureKey>,
            forall|n: Seq<char>| final(self).input_handle(n) == None::<T>,
            final(self).target_key() == old(self).target_key(),
            final(self).final_key() == old(self).final_key(),
            final(self).staging_len() == old(self).staging_len(),
            final(self).target_handle() == old(self).target_handle(),
            final(self).final_handle() == old(self).final_handle(),
            final(self).staging_handle() == old(self).staging_handle(),
    {
        self.inputs = Vec::new();
    }
}

/// Once the targets have been installed for a size, a second request for that
/// size reuses them: the first call allocates at most once.
pub proof fn target_request_is_idempotent<T, B>(
    after: ResourceCache<T, B>,
    width: u32,
    height: u32,
    depth: BitDepth,
)
    requires
        after.target_key() == Some(spec_target_key(width, height, depth)),
    ensures
        after.spec_target_hit(width, height),
{
}

} // verus!

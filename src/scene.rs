use vstd::prelude::*;
use vstd::string::StringExecFns;
use crate::cache::ResourceCache;
use crate::format::BitDepth;

verus! {

/// The observable state of a sequence's scene loader.
pub struct SceneModel {
    pub depth: BitDepth,
    /// The last source text handed to a load; `None` after an unload.
    pub source: Option<Seq<char>>,
    /// Whether the main stage runs the fallback error shader.
    pub is_default: bool,
    /// Set by every reload, cleared when read.
    pub reloaded: bool,
}

/// A load of `src` compiles only when it differs from the recorded source.
pub open spec fn spec_load_needed(m: SceneModel, src: Seq<char>) -> bool {
    m.source != Some(src)
}

/// State after `src` was compiled; `ok` tells whether compilation succeeded.
/// A failed compile leaves the sequence reporting the default state.
pub open spec fn spec_after_load(m: SceneModel, src: Seq<char>, ok: bool) -> SceneModel {
    if ok {
        SceneModel { source: Some(src), is_default: false, reloaded: true, ..m }
    } else {
        SceneModel { source: Some(src), is_default: true, ..m }
    }
}

pub open spec fn spec_after_unload(m: SceneModel) -> SceneModel {
    SceneModel { source: None, is_default: true, reloaded: true, ..m }
}

/// State after a bit-depth change to `d`; `compiled` tells whether the recorded
/// source was rebuilt rather than replaced by the fallback shader.
pub open spec fn spec_after_depth(m: SceneModel, d: BitDepth, compiled: bool) -> SceneModel {
    if d == m.depth {
        m
    } else {
        SceneModel { depth: d, source: m.source, is_default: !compiled, reloaded: true }
    }
}

pub open spec fn spec_after_take(m: SceneModel) -> SceneModel {
    SceneModel { reloaded: false, ..m }
}

/// Everything a sequence keeps between calls: the main, ingest and egress
/// shader contexts (`C`), the resource cache and the loader's flags.
pub struct PipelineState<C, T, B> {
    /// Context of the user shader, or the fallback when none is loaded.
    ctx: C,
    /// Converts host pixels into the main stage's format.
    ingest: C,
    /// Converts the main stage's output into host pixels.
    egress: C,
    cache: ResourceCache<T, B>,
    depth: BitDepth,
    source: Option<String>,
    is_default: bool,
    reloaded: bool,
}

impl<C, T, B> View for PipelineState<C, T, B> {
    type V = SceneModel;

    closed spec fn view(&self) -> SceneModel {
        SceneModel {
            depth: self.depth,
            source: match self.source {
                Some(s) => Some(s@),
                None => None,
            },
            is_default: self.is_default,
            reloaded: self.reloaded,
        }
    }
}

impl<C, T, B> PipelineState<C, T, B> {
    pub closed spec fn main_ctx(&self) -> C {
        self.ctx
    }

    pub closed spec fn ingest_ctx(&self) -> C {
        self.ingest
    }

    pub closed spec fn egress_ctx(&self) -> C {
        self.egress
    }

    pub closed spec fn resources(&self) -> ResourceCache<T, B> {
        self.cache
    }

    /// The stage contexts and the cache, for encoding a frame.
    pub fn stages_mut(&mut self) -> ((ctx, ingest, egress, cache): (
        &mut C,
        &mut C,
        &mut C,
        &mut ResourceCache<T, B>,
    ))
        ensures
            *ctx == old(self).main_ctx(),
            *ingest == old(self).ingest_ctx(),
            *egress == old(self).egress_ctx(),
            *cache == old(self).resources(),
            final(self)@ == old(self)@,
            final(self).main_ctx() == *final(ctx),
            final(self).ingest_ctx() == *final(ingest),
            final(self).egress_ctx() == *final(egress),
            final(self).resources() == *final(cache),
    {
        (&mut self.ctx, &mut self.ingest, &mut self.egress, &mut self.cache)
    }

    pub fn resources_ref(&self) -> (r: &ResourceCache<T, B>)
        ensures
            *r == self.resources(),
    {
        &self.cache
    }

    pub fn main_context(&self) -> (r: &C)
        ensures
            *r == self.main_ctx(),
    {
        &self.ctx
    }

    /// A fresh sequence at `depth`, running the `fallback` shader.
    pub fn new(depth: BitDepth, fallback: C, ingest: C, egress: C) -> (r: Self)
        ensures
            r@ == (SceneModel { depth, source: None, is_default: true, reloaded: true }),
            r.main_ctx() == fallback,
            r.ingest_ctx() == ingest,
            r.egress_ctx() == egress,
            r.resources().target_key() is None,
            r.resources().final_key() is None,
            r.resources().staging_len() is None,
            forall|n: Seq<char>| r.resources().input_key(n) is None,
    {
        PipelineState {
            ctx: fallback,
            ingest,
            egress,
            cache: ResourceCache::new(),
            depth,
            source: None,
            is_default: true,
            reloaded: true,
        }
    }

    pub fn bit_depth(&self) -> (r: BitDepth)
        ensures
            r == self@.depth,
    {
        self.depth
    }

    pub fn is_default(&self) -> (r: bool)
        ensures
            r == self@.is_default,
    {
        self.is_default
    }

    /// The recorded source text, empty when none is recorded.
    pub fn source_string(&self) -> (r: String)
        ensures
            r@ == match self@.source {
                Some(s) => s,
                None => Seq::<char>::empty(),
            },
    {
        match &self.source {
            Some(s) => s.clone(),
            None => String::new(),
        }
    }

    /// Whether a source text is recorded.
    pub fn has_source(&self) -> (r: bool)
        ensures
            r == self@.source is Some,
    {
        self.source.is_some()
    }

    /// Whether loading `src` has to compile anything.
    pub fn needs_compile(&self, src: &String) -> (r: bool)
        ensures
            r == spec_load_needed(self@, src@),
    {
        match &self.source {
            Some(s) => !(*s == *src),
            None => true,
        }
    }

    /// Records the outcome of compiling `src`. On success the new context
    /// replaces the main one and the empty string is returned; on failure the
    /// previous context is kept for rendering, the sequence reports the default
    /// state and a non-empty message is returned. Either way
    /// `src` becomes the recorded source and cached input textures are dropped.
    pub fn finish_load(&mut self, src: &String, outcome: Result<C, String>) -> (msg: String)
        ensures
            final(self)@ == spec_after_load(old(self)@, src@, outcome is Ok),
            (msg@.len() == 0) == (outcome is Ok),
            outcome matches Ok(c) ==> final(self).main_ctx() == c,
            outcome matches Err(e) ==> final(self).main_ctx() == old(self).main_ctx() && (e@.len() > 0
                ==> msg@ == e@),
            final(self).ingest_ctx() == old(self).ingest_ctx(),
            final(self).egress_ctx() == old(self).egress_ctx(),
            forall|n: Seq<char>| final(self).resources().input_key(n) is None,
            final(self).resources().target_key() == old(self).resources().target_key(),
            final(self).resources().final_key() == old(self).resources().final_key(),
            final(self).resources().staging_len() == old(self).resources().staging_len(),
            final(self).resources().target_handle() == old(self).resources().target_handle(),
            final(self).resources().final_handle() == old(self).resources().final_handle(),
            final(self).resources().staging_handle() == old(self).resources().staging_handle(),
    {
        self.source = Some(src.clone());
        self.cache.clear_inputs();
        match outcome {
            Ok(c) => {
                self.ctx = c;
                self.is_default = false;
                self.reloaded = true;
                String::new()
            },
            Err(e) => {
                self.is_default = true;
                let empty = String::new();
                assert(e@.len() == 0 ==> e@ =~= empty@);
                if !(e == empty) {
                    e
                } else {
                    let m = String::from_str("shader failed to build");
                    proof {
                        reveal_strlit("shader failed to build");
                    }
                    m
                }
            },
        }
    }

    /// Drops the user shader in favour of `fallback`.
    pub fn unload(&mut self, fallback: C)
        ensures
            final(self)@ == spec_after_unload(old(self)@),
            final(self).main_ctx() == fallback,
            final(self).ingest_ctx() == old(self).ingest_ctx(),
            final(self).egress_ctx() == old(self).egress_ctx(),
            final(self).resources() == old(self).resources(),
    {
        self.ctx = fallback;
        self.source = None;
        self.is_default = true;
        self.reloaded = true;
    }

    /// Switches to `depth` with contexts built for it: `main` is `Ok` when it was
    /// compiled from the recorded source and `Err` when it is the fallback.
    /// Every cached GPU object is dropped. Nothing changes when `depth` is the
    /// current one.
    pub fn change_bit_depth(&mut self, depth: BitDepth, main: Result<C, C>, ingest: C, egress: C)
        requires
            main is Ok ==> old(self)@.source is Some,
        ensures
            final(self)@ == spec_after_depth(old(self)@, depth, main is Ok),
            depth != old(self)@.depth ==> {
                &&& final(self).main_ctx() == match main {
                    Ok(c) => c,
                    Err(c) => c,
                }
                &&& final(self).ingest_ctx() == ingest
                &&& final(self).egress_ctx() == egress
                &&& final(self).resources().target_key() is None
                &&& final(self).resources().final_key() is None
                &&& final(self).resources().staging_len() is None
                &&& forall|n: Seq<char>| final(self).resources().input_key(n) is None
            },
            depth == old(self)@.depth ==> *final(self) == *old(self),
    {
        if depth != self.depth {
            let is_default = match &main {
                Ok(_) => false,
                Err(_) => true,
            };
            self.ctx = match main {
                Ok(c) => c,
                Err(c) => c,
            };
            self.ingest = ingest;
            self.egress = egress;
            self.cache = ResourceCache::new();
            self.depth = depth;
            self.is_default = is_default;
            self.reloaded = true;
        }
    }

    /// Reads and clears the reload flag.
    pub fn scene_was_reloaded(&mut self) -> (r: bool)
        ensures
            r == old(self)@.reloaded,
            final(self)@ == spec_after_take(old(self)@),
            final(self).main_ctx() == old(self).main_ctx(),
            final(self).ingest_ctx() == old(self).ingest_ctx(),
            final(self).egress_ctx() == old(self).egress_ctx(),
            final(self).resources() == old(self).resources(),
    {
        let r = self.reloaded;
        self.reloaded = false;
        r
    }
}

/// Loading the same source twice compiles once: after a successful load of
/// `src`, loading `src` again needs no compilation, and the reload flag is set.
pub proof fn load_same_source_twice(m: SceneModel, src: Seq<char>)
    ensures
        !spec_load_needed(spec_after_load(m, src, true), src),
        spec_after_load(m, src, true).reloaded,
        spec_after_load(m, src, true).source == Some(src),
        !spec_load_needed(spec_after_load(m, src, false), src),
{
}

/// A load whose compile fails records the attempted source, reports the
/// default state and does not set the reload flag, whatever state it started in.
pub proof fn failed_load_reports_default(m: SceneModel, src: Seq<char>)
    ensures
        spec_after_load(m, src, false).is_default,
        spec_after_load(m, src, false).source == Some(src),
        spec_after_load(m, src, false).reloaded == m.reloaded,
        spec_after_load(m, src, false).depth == m.depth,
{
}

/// The reload flag reads true exactly once after each successful load, unload
/// or bit-depth change, and false on the next read.
pub proof fn reload_flag_is_edge_triggered(m: SceneModel, src: Seq<char>, d: BitDepth, compiled: bool)
    ensures
        spec_after_load(m, src, true).reloaded,
        !spec_after_take(spec_after_load(m, src, true)).reloaded,
        spec_after_unload(m).reloaded,
        !spec_after_take(spec_after_unload(m)).reloaded,
        d != m.depth ==> spec_after_depth(m, d, compiled).reloaded,
        !spec_after_take(spec_after_depth(m, d, compiled)).reloaded,
        !spec_after_take(spec_after_take(m)).reloaded,
{
}

/// A bit-depth change keeps the recorded source and sets the reload flag.
pub proof fn depth_change_keeps_source(m: SceneModel, d: BitDepth, compiled: bool)
    requires
        d != m.depth,
    ensures
        spec_after_depth(m, d, compiled).source == m.source,
        spec_after_depth(m, d, compiled).depth == d,
        spec_after_depth(m, d, compiled).reloaded,
        spec_after_depth(m, d, compiled).is_default == !compiled,
{
}

} // verus!

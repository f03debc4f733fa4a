//! Texture resources and the handle-keyed texture table.
//!
//! A texture handle is an opaque, copyable identifier handed out by the
//! asset-loading collaborator; the resource itself becomes available later,
//! once its load completes.  Of a texture this crate models exactly what
//! it reads and writes: the sampling configuration.

use vstd::prelude::*;

verus! {

/// Sampling mode of a texture: nearest-neighbour (blocky scaling) or linear
/// (bilinear smoothing).
#[derive(Clone, Copy, Debug, PartialEq, Eq, Structural)]
pub enum FilterMode {
    Nearest,
    Linear,
}

/// Sampling configuration of a texture: the filter used when the texture is
/// scaled down (minification) and up (magnification).
#[derive(Clone, Copy, Debug, PartialEq, Eq, Structural)]
pub struct SamplerConfig {
    pub min_filter: FilterMode,
    pub mag_filter: FilterMode,
}

/// A texture resource, reduced to the state this crate touches.
#[derive(Clone, Copy, Debug, PartialEq, Eq, Structural)]
pub struct Texture {
    pub sampler: SamplerConfig,
}

impl Texture {
    /// A freshly uploaded texture: both filters nearest-neighbour.
    pub fn new() -> (t: Texture)
        ensures
            t == (Texture {
                sampler: SamplerConfig {
                    min_filter: FilterMode::Nearest,
                    mag_filter: FilterMode::Nearest,
                },
            }),
    {
        Texture {
            sampler: SamplerConfig {
                min_filter: FilterMode::Nearest,
                mag_filter: FilterMode::Nearest,
            },
        }
    }
}

/// The fixed sampling update applied when a texture finishes loading: both
/// minification and magnification filters set to linear.
pub open spec fn with_linear_sampling(t: Texture) -> Texture {
    Texture {
        sampler: SamplerConfig { min_filter: FilterMode::Linear, mag_filter: FilterMode::Linear },
        ..t
    }
}

/// Sets both sampling filters of `t` to linear.
pub fn apply_linear_filtering(t: &mut Texture)
    ensures
        *final(t) == with_linear_sampling(*old(t)),
{
    t.sampler.min_filter = FilterMode::Linear;
    t.sampler.mag_filter = FilterMode::Linear;
}

/// The linear-sampling update is idempotent: applying it twice to the same
/// texture yields the same sampling configuration as applying it once, so
/// at-least-once delivery of load notifications is tolerated.
pub proof fn lemma_linear_sampling_idempotent(t: Texture)
    ensures
        with_linear_sampling(with_linear_sampling(t)) == with_linear_sampling(t),
{
}

/// Abstract contents of a texture table: handle to texture, later entries
/// overriding earlier ones with the same handle.
pub open spec fn map_of(s: Seq<(u64, Texture)>) -> Map<u64, Texture>
    decreases s.len(),
{
    if s.len() == 0 {
        Map::empty()
    } else {
        map_of(s.drop_last()).insert(s.last().0, s.last().1)
    }
}

/// No two entries share a handle.
pub open spec fn handles_unique(s: Seq<(u64, Texture)>) -> bool {
    forall|i: int, j: int| 0 <= i < j < s.len() ==> s[i].0 != s[j].0
}

/// A handle is in the abstract contents exactly when some entry carries it.
proof fn lemma_map_of_dom(s: Seq<(u64, Texture)>, h: u64)
    ensures
        map_of(s).dom().contains(h) <==> exists|i: int| 0 <= i < s.len() && s[i].0 == h,
    decreases s.len(),
{
    if s.len() > 0 {
        lemma_map_of_dom(s.drop_last(), h);
        if s.last().0 != h && map_of(s).dom().contains(h) {
            let i = choose|i: int| 0 <= i < s.drop_last().len() && s.drop_last()[i].0 == h;
            assert(s[i].0 == h);
        }
        if exists|i: int| 0 <= i < s.len() && s[i].0 == h {
            let i = choose|i: int| 0 <= i < s.len() && s[i].0 == h;
            if i < s.len() - 1 {
                assert(s.drop_last()[i].0 == h);
            }
        }
    }
}

/// With unique handles, the abstract contents at an entry's handle is that
/// entry's texture.
proof fn lemma_map_of_index(s: Seq<(u64, Texture)>, i: int)
    requires
        handles_unique(s),
        0 <= i < s.len(),
    ensures
        map_of(s).dom().contains(s[i].0),
        map_of(s)[s[i].0] == s[i].1,
    decreases s.len(),
{
    lemma_map_of_dom(s, s[i].0);
    if i < s.len() - 1 {
        assert(s.drop_last()[i] == s[i]);
        lemma_map_of_index(s.drop_last(), i);
        assert(s.last().0 != s[i].0);
    }
}

/// With unique handles, replacing the texture of one entry updates the
/// abstract contents at exactly that handle.
proof fn lemma_map_of_update(s: Seq<(u64, Texture)>, i: int, t: Texture)
    requires
        handles_unique(s),
        0 <= i < s.len(),
    ensures
        map_of(s.update(i, (s[i].0, t))) =~= map_of(s).insert(s[i].0, t),
    decreases s.len(),
{
    let s2 = s.update(i, (s[i].0, t));
    if i == s.len() - 1 {
        assert(s2.drop_last() =~= s.drop_last());
    } else {
        assert(s2.drop_last() =~= s.drop_last().update(i, (s[i].0, t)));
        assert(s.drop_last()[i] == s[i]);
        lemma_map_of_update(s.drop_last(), i, t);
        assert(s.last().0 != s[i].0);
    }
}

/// The texture table: the mutable store of loaded texture resources, keyed
/// by handle.  Owned by the asset-loading collaborator, which registers each
/// texture as its upload completes; the texture-ready reactor rewrites the
/// sampling fields.
pub struct TextureAssets {
    entries: Vec<(u64, Texture)>,
}

impl View for TextureAssets {
    type V = Map<u64, Texture>;

    closed spec fn view(&self) -> Map<u64, Texture> {
        map_of(self.entries@)
    }
}

impl TextureAssets {
    /// Well-formedness: no handle is registered twice.
    pub closed spec fn wf(self) -> bool {
        handles_unique(self.entries@)
    }

    /// An empty table.
    pub fn new() -> (a: TextureAssets)
        ensures
            a.wf(),
            a@ == Map::<u64, Texture>::empty(),
    {
        TextureAssets { entries: Vec::new() }
    }

    /// Index of the entry carrying `handle`, if any.
    fn find(&self, handle: u64) -> (r: Option<usize>)
        ensures
            (match r {
                Some(i) => i < self.entries@.len() && self.entries@[i as int].0 == handle,
                None => forall|j: int| 0 <= j < self.entries@.len() ==> self.entries@[j].0 != handle,
            }),
    {
        let mut i: usize = 0;
        while i < self.entries.len()
            invariant
                i <= self.entries@.len(),
                forall|j: int| 0 <= j < i ==> self.entries@[j].0 != handle,
            decreases self.entries@.len() - i,
        {
            if self.entries[i].0 == handle {
                return Some(i);
            }
            i = i + 1;
        }
        None
    }

    /// Whether a texture is registered under `handle`.
    pub fn contains_handle(&self, handle: u64) -> (b: bool)
        ensures
            b == self@.dom().contains(handle),
    {
        proof {
            lemma_map_of_dom(self.entries@, handle);
        }
        self.find(handle).is_some()
    }

    /// Registers a freshly loaded texture under `handle`.  Registration is
    /// write-once per handle within a session.
    pub fn register(&mut self, handle: u64, texture: Texture)
        requires
            old(self).wf(),
            !old(self)@.dom().contains(handle),
        ensures
            final(self).wf(),
            final(self)@ == old(self)@.insert(handle, texture),
    {
        proof {
            lemma_map_of_dom(self.entries@, handle);
        }
        self.entries.push((handle, texture));
        proof {
            assert(self.entries@.drop_last() =~= old(self).entries@);
        }
    }

    /// The texture registered under `handle`, if any.
    pub fn get(&self, handle: u64) -> (r: Option<Texture>)
        requires
            self.wf(),
        ensures
            (match r {
                Some(t) => self@.dom().contains(handle) && t == self@[handle],
                None => !self@.dom().contains(handle),
            }),
    {
        proof {
            lemma_map_of_dom(self.entries@, handle);
        }
        match self.find(handle) {
            Some(i) => {
                proof {
                    lemma_map_of_index(self.entries@, i as int);
                }
                Some(self.entries[i].1)
            },
            None => None,
        }
    }

    /// Rewrites the sampling configuration of the texture registered under
    /// `handle` to linear filtering.
    pub fn set_linear(&mut self, handle: u64)
        requires
            old(self).wf(),
            old(self)@.dom().contains(handle),
        ensures
            final(self).wf(),
            final(self)@ == old(self)@.insert(
                handle,
                with_linear_sampling(old(self)@[handle]),
            ),
    {
        proof {
            lemma_map_of_dom(self.entries@, handle);
        }
        let i = match self.find(handle) {
            Some(i) => i,
            None => {
                proof {
                    assert(false);
                }
                0
            },
        };
        proof {
            lemma_map_of_index(self.entries@, i as int);
        }
        let mut t = self.entries[i].1;
        apply_linear_filtering(&mut t);
        let ghost s0 = self.entries@;
        self.entries[i] = (handle, t);
        proof {
            assert(self.entries@ =~= s0.update(i as int, (s0[i as int].0, t)));
            lemma_map_of_update(s0, i as int, t);
        }
    }
}

} // verus!

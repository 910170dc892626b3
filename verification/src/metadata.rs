//! Endpoint metadata and the version-history resolution engine.
//!
//! A [`VersionHistory`] records an endpoint's unstable, stable, deprecated
//! and removed path variants over a protocol-version timeline. Given the set
//! of versions the negotiating peers support, it classifies the endpoint's
//! availability (a [`VersioningDecision`]) and picks the [`Metadata`] variant
//! to use.

use vstd::prelude::*;

use crate::auth::AuthScheme;
use crate::error::{IntoHttpError, UrlError};
use crate::url::{
    construct_url, full_url, pairs_view, parse_uri, render_path, uri_of, uri_ok, urlencoded_of,
    RenderedPath,
};

verus! {

/// A protocol version. Versions are totally ordered; nothing else is assumed
/// of them, so they are represented as plain unsigned integers.
pub type Version = u64;

/// One concrete shape of an endpoint: HTTP method, accepted authentication
/// schemes, URL path template and extra headers.
///
/// Immutable once constructed; typically defined at configuration time and
/// read for the process lifetime.
#[derive(Debug, Clone)]
pub struct Metadata {
    /// The HTTP method of this variant.
    pub method: http::Method,
    /// The identifiers of the authentication schemes this variant accepts.
    pub auth: Vec<String>,
    /// The URL path template; `{name}` placeholders are filled from path
    /// arguments when the URL is built.
    pub path: String,
    /// Extra headers attached to every request using this variant.
    pub headers: Vec<(http::HeaderName, http::HeaderValue)>,
}

/// What URL construction on a variant returns: when the template renders,
/// the result is exactly the parse of the full URL, or `Http` if that URL
/// is no valid URI; a template with an unfilled placeholder is rejected
/// with `UnfilledField`, one with an unclosed placeholder with
/// `InvalidEndpoint`.
pub open spec fn make_url_spec(
    template: Seq<char>,
    base: Seq<char>,
    args: Seq<(Seq<char>, Seq<char>)>,
    query: Seq<(Seq<char>, Seq<char>)>,
    r: Result<http::Uri, IntoHttpError>,
) -> bool {
    match render_path(template, args) {
        RenderedPath::Done(p) => {
            let url = full_url(base, p, urlencoded_of(query));
            match r {
                Ok(u) => uri_ok(url) && u == uri_of(url),
                Err(e) => !uri_ok(url) && e is Http,
            }
        },
        RenderedPath::MissingClose => r matches Err(IntoHttpError::Url(e)) && e
            == UrlError::InvalidEndpoint,
        RenderedPath::Unfilled(n) => r matches Err(IntoHttpError::Url(e)) && (e
            matches UrlError::UnfilledField(f) && f@ == n),
    }
}

impl Metadata {
    /// Whether this variant accepts the authentication scheme with the
    /// given identifier (exact match; the order of the list is irrelevant).
    pub open spec fn spec_contains_auth(self, scheme_id: Seq<char>) -> bool {
        exists|i: int| 0 <= i < self.auth@.len() && self.auth@[i]@ == scheme_id
    }

    /// Builds this variant's URL: strips one trailing `/` from `base_url`,
    /// renders the path template with `path_args`, appends the urlencoded
    /// `query_string` after a `?` when there is any, and parses the result
    /// as a URI.
    pub fn make_url(&self, base_url: &str, path_args: &Vec<(String, String)>, query_string: &Vec<(String, String)>) -> (r: Result<http::Uri, IntoHttpError>)
        ensures
            make_url_spec(
                self.path@,
                base_url@,
                pairs_view(path_args@),
                pairs_view(query_string@),
                r,
            ),
    {
        match construct_url(base_url, self.path.as_str(), path_args, query_string) {
            Ok(url) => match parse_uri(url) {
                Ok(uri) => Ok(uri),
                Err(e) => Err(IntoHttpError::Http(e)),
            },
            Err(e) => Err(IntoHttpError::Url(e)),
        }
    }

    /// Returns whether this variant accepts the given authentication
    /// scheme.
    #[must_use]
    pub fn contains_auth<S: AuthScheme>(&self, scheme: &S) -> (r: bool)
        ensures
            r == self.spec_contains_auth(scheme.spec_scheme()),
    {
        let scheme_str = String::from_str(scheme.scheme());
        let n: usize = self.auth.len();
        let mut i: usize = 0;
        while i < n
            invariant
                n == self.auth@.len(),
                0 <= i <= n,
                scheme_str@ == scheme.spec_scheme(),
                forall|j: int| 0 <= j < i ==> self.auth@[j]@ != scheme.spec_scheme(),
            decreases n - i,
        {
            if self.auth[i].eq(&scheme_str) {
                assert(self.auth@[i as int]@ == scheme.spec_scheme());
                return true;
            }
            i += 1;
        }
        false
    }
}

/// How a particular set of candidate versions sees an endpoint.
///
/// Computed fresh per resolution call by
/// [`VersionHistory::versioning_decision_for`].
#[derive(Debug, Copy, Clone, PartialEq, Eq, Structural)]
pub enum VersioningDecision {
    /// The unstable variant should be used.
    Unstable,
    /// The stable variant should be used.
    Stable {
        /// Whether any candidate version deprecates the endpoint.
        any_deprecated: bool,
        /// Whether every candidate version deprecates the endpoint.
        all_deprecated: bool,
        /// Whether any candidate version removes the endpoint.
        any_removed: bool,
    },
    /// Every candidate version removed the endpoint; it should not be used.
    Removed,
}

/// Whether some version in `versions` is at least `v`.
pub open spec fn any_ge(versions: Seq<Version>, v: Version) -> bool {
    exists|i: int| 0 <= i < versions.len() && versions[i] >= v
}

/// Whether `v` occurs in `versions`.
pub open spec fn contains_version(versions: Seq<Version>, v: Version) -> bool {
    exists|i: int| 0 <= i < versions.len() && versions[i] == v
}

/// Whether every version in `versions` is at least `v`. Vacuously true of an
/// empty sequence.
pub open spec fn all_ge(versions: Seq<Version>, v: Version) -> bool {
    forall|i: int| 0 <= i < versions.len() ==> versions[i] >= v
}

/// [`any_ge`] against an optional marker version; false when the marker is
/// absent.
pub open spec fn opt_any_ge(versions: Seq<Version>, marker: Option<Version>) -> bool {
    match marker {
        Some(v) => any_ge(versions, v),
        None => false,
    }
}

/// [`all_ge`] against an optional marker version; false when the marker is
/// absent.
pub open spec fn opt_all_ge(versions: Seq<Version>, marker: Option<Version>) -> bool {
    match marker {
        Some(v) => all_ge(versions, v),
        None => false,
    }
}

/// Whether the stable entries are strictly ascending by version.
pub open spec fn stable_versions_sorted(paths: Seq<(Version, Metadata)>) -> bool {
    forall|i: int, j: int| 0 <= i < j < paths.len() ==> paths[i].0 < paths[j].0
}

/// The stable entry that a candidate set selects: scanning from the
/// most-recent entry down, the first whose version some candidate reaches.
pub open spec fn stable_choice(
    paths: Seq<(Version, Metadata)>,
    versions: Seq<Version>,
) -> Option<(Version, Metadata)>
    decreases paths.len(),
{
    if paths.len() == 0 {
        None
    } else if any_ge(versions, paths.last().0) {
        Some(paths.last())
    } else {
        stable_choice(paths.drop_last(), versions)
    }
}

/// The full timeline of an endpoint's path variants: unstable variants,
/// stable variants tagged with the version that introduced them, and
/// optional deprecation and removal markers.
#[derive(Debug, Clone)]
pub struct VersionHistory {
    /// The unstable (pre-release) variants. For endpoint querying purposes,
    /// the last entry is used.
    pub unstable_paths: Vec<Metadata>,
    /// The stable variants, each tagged with the version it was introduced
    /// in, strictly ascending by version.
    pub stable_paths: Vec<(Version, Metadata)>,
    /// The version the endpoint was deprecated in, if any.
    pub deprecated: Option<Version>,
    /// The version the endpoint was removed in, if any.
    pub removed: Option<Version>,
}

impl VersionHistory {
    /// Well-formedness: the stable entries ascend strictly by version. A
    /// construction-time invariant; the resolver assumes it and never
    /// re-sorts.
    pub open spec fn wf(self) -> bool {
        stable_versions_sorted(self.stable_paths@)
    }

    /// The version the first stable entry was introduced in, if any.
    pub open spec fn spec_added_in(self) -> Option<Version> {
        if self.stable_paths@.len() == 0 {
            None
        } else {
            Some(self.stable_paths@[0].0)
        }
    }

    /// The canonical unstable variant: the last one registered, if any.
    pub open spec fn spec_unstable(self) -> Option<Metadata> {
        if self.unstable_paths@.len() == 0 {
            None
        } else {
            Some(self.unstable_paths@.last())
        }
    }

    /// How the candidate set `versions` sees this endpoint, in decision
    /// precedence: removal (which every candidate must agree on), then
    /// stability (which a single candidate suffices for), else unstable.
    pub open spec fn decision(self, versions: Seq<Version>) -> VersioningDecision {
        if opt_all_ge(versions, self.removed) {
            VersioningDecision::Removed
        } else if self.stable_paths@.len() > 0 && any_ge(versions, self.stable_paths@[0].0) {
            let all_deprecated = opt_all_ge(versions, self.deprecated);
            VersioningDecision::Stable {
                any_deprecated: all_deprecated || opt_any_ge(versions, self.deprecated),
                all_deprecated: all_deprecated,
                any_removed: opt_any_ge(versions, self.removed),
            }
        } else {
            VersioningDecision::Unstable
        }
    }

    /// The variant that [`VersionHistory::select_endpoint`] returns on
    /// success: the last unstable variant under an `Unstable` decision, the
    /// stable choice under a `Stable` decision, nothing otherwise.
    pub open spec fn spec_select(self, versions: Seq<Version>) -> Option<Metadata> {
        match self.decision(versions) {
            VersioningDecision::Unstable => self.spec_unstable(),
            VersioningDecision::Stable { .. } => match stable_choice(
                self.stable_paths@,
                versions,
            ) {
                Some(p) => Some(p.1),
                None => None,
            },
            VersioningDecision::Removed => None,
        }
    }

    /// Creates a new `VersionHistory`. The stable entries must be supplied
    /// in strictly ascending version order.
    pub fn new(
        unstable_paths: Vec<Metadata>,
        stable_paths: Vec<(Version, Metadata)>,
        deprecated: Option<Version>,
        removed: Option<Version>,
    ) -> (r: Self)
        requires
            stable_versions_sorted(stable_paths@),
        ensures
            r.unstable_paths == unstable_paths,
            r.stable_paths == stable_paths,
            r.deprecated == deprecated,
            r.removed == removed,
            r.wf(),
    {
        Self { unstable_paths, stable_paths, deprecated, removed }
    }

    /// Constructs the endpoint URL for the candidate versions: selects the
    /// variant to use as [`VersionHistory::select_endpoint`] does, then
    /// builds its URL as [`Metadata::make_url`] does.
    pub fn make_endpoint_url(&self, versions: &[Version], base_url: &str, path_args: &Vec<(String, String)>, query_string: &Vec<(String, String)>) -> (r: Result<http::Uri, IntoHttpError>)
        ensures
            match self.spec_select(versions@) {
                Some(m) => make_url_spec(
                    m.path@,
                    base_url@,
                    pairs_view(path_args@),
                    pairs_view(query_string@),
                    r,
                ),
                None => r matches Err(e) && {
                    &&& (e is EndpointRemoved <==> self.decision(versions@) is Removed)
                    &&& (e is NoUnstablePath <==> self.decision(versions@) is Unstable)
                },
            },
    {
        match self.select_endpoint(versions) {
            Ok(metadata) => metadata.make_url(base_url, path_args, query_string),
            Err(e) => Err(e),
        }
    }

    /// Determines how the candidate set `versions` sees this endpoint.
    ///
    /// Only returns `Removed` if all candidate versions denote removal: a
    /// single older peer keeps the endpoint available from its perspective.
    /// Conversely, one candidate version that supports the endpoint in a
    /// stable fashion is enough for `Stable`, whose fields then detail
    /// whether any or all candidates denote deprecation or removal.
    #[must_use]
    pub fn versioning_decision_for(&self, versions: &[Version]) -> (r: VersioningDecision)
        ensures
            r == self.decision(versions@),
    {
        let removed_all = match self.removed {
            Some(v) => all_versions_ge(versions, v),
            None => false,
        };
        if removed_all {
            return VersioningDecision::Removed;
        }

        let stable_any = if self.stable_paths.len() > 0 {
            any_versions_ge(versions, self.stable_paths[0].0)
        } else {
            false
        };
        if stable_any {
            let all_deprecated = match self.deprecated {
                Some(v) => all_versions_ge(versions, v),
                None => false,
            };
            let any_deprecated = match self.deprecated {
                Some(v) => any_versions_ge(versions, v),
                None => false,
            };
            let any_removed = match self.removed {
                Some(v) => any_versions_ge(versions, v),
                None => false,
            };
            return VersioningDecision::Stable {
                any_deprecated: all_deprecated || any_deprecated,
                all_deprecated,
                any_removed,
            };
        }

        VersioningDecision::Unstable
    }

    /// Returns the first version this endpoint was introduced in, or `None`
    /// if it only exists unstably.
    #[must_use]
    pub fn added_in(&self) -> (r: Option<Version>)
        ensures
            r == self.spec_added_in(),
    {
        if self.stable_paths.len() > 0 {
            Some(self.stable_paths[0].0)
        } else {
            None
        }
    }

    /// Returns the version this endpoint was deprecated in, if any.
    #[must_use]
    pub fn deprecated_in(&self) -> (r: Option<Version>)
        ensures
            r == self.deprecated,
    {
        self.deprecated
    }

    /// Returns the version this endpoint was removed in, if any.
    #[must_use]
    pub fn removed_in(&self) -> (r: Option<Version>)
        ensures
            r == self.removed,
    {
        self.removed
    }

    /// The variant that should be used to query the endpoint given the
    /// candidate versions: the latest stable variant that some candidate
    /// version accepts, or `None` if no stable entry qualifies.
    ///
    /// This does not keep endpoint removal in mind; check with
    /// [`VersionHistory::versioning_decision_for`] whether the endpoint is
    /// still available.
    #[must_use]
    pub fn stable_endpoint_for(&self, versions: &[Version]) -> (r: Option<&Metadata>)
        ensures
            match r {
                Some(m) => stable_choice(self.stable_paths@, versions@) matches Some(p)
                    && p.1 == *m,
                None => stable_choice(self.stable_paths@, versions@) is None,
            },
    {
        let ghost paths = self.stable_paths@;
        proof {
            assert(paths.subrange(0, paths.len() as int) =~= paths);
        }
        // Go in reverse to check the latest version first.
        let mut i: usize = self.stable_paths.len();
        while i > 0
            invariant
                i <= paths.len(),
                paths == self.stable_paths@,
                stable_choice(paths, versions@) == stable_choice(
                    paths.subrange(0, i as int),
                    versions@,
                ),
            decreases i,
        {
            i -= 1;
            proof {
                assert(paths.subrange(0, i + 1).last() == paths[i as int]);
                assert(paths.subrange(0, i + 1).drop_last() =~= paths.subrange(0, i as int));
            }
            let pair: &(Version, Metadata) = &self.stable_paths[i];
            // Check whether any candidate version reaches this entry.
            if any_versions_ge(versions, pair.0) {
                return Some(&pair.1);
            }
        }
        proof {
            assert(paths.subrange(0, 0) =~= Seq::<(Version, Metadata)>::empty());
        }
        None
    }

    /// Selects the variant to use under the decision the candidate versions
    /// give: the last unstable variant when the decision is `Unstable`
    /// (`NoUnstablePath` if none is registered), the qualifying stable
    /// variant when it is `Stable`, and `EndpointRemoved` when it is
    /// `Removed`.
    pub fn select_endpoint(&self, versions: &[Version]) -> (r: Result<&Metadata, IntoHttpError>)
        ensures
            match r {
                Ok(m) => self.spec_select(versions@) == Some(*m),
                Err(e) => {
                    &&& self.spec_select(versions@) is None
                    &&& (e is EndpointRemoved <==> self.decision(versions@) is Removed)
                    &&& (e is NoUnstablePath <==> self.decision(versions@) is Unstable)
                },
            },
    {
        match self.versioning_decision_for(versions) {
            VersioningDecision::Unstable => match self.unstable() {
                Some(m) => Ok(m),
                None => Err(IntoHttpError::NoUnstablePath),
            },
            VersioningDecision::Stable { .. } => {
                proof {
                    lemma_stable_choice_some(self.stable_paths@, versions@);
                }
                match self.stable_endpoint_for(versions) {
                    Some(m) => Ok(m),
                    // A `Stable` decision guarantees a qualifying entry.
                    None => vstd::pervasive::unreached(),
                }
            },
            VersioningDecision::Removed => Err(IntoHttpError::EndpointRemoved),
        }
    }

    /// Returns all unstable path variants, in registration order.
    pub fn unstable_paths(&self) -> (r: Vec<&Metadata>)
        ensures
            r@.len() == self.unstable_paths@.len(),
            forall|i: int| 0 <= i < r@.len() ==> *r@[i] == self.unstable_paths@[i],
    {
        let n: usize = self.unstable_paths.len();
        let mut r: Vec<&Metadata> = Vec::new();
        let mut i: usize = 0;
        while i < n
            invariant
                n == self.unstable_paths@.len(),
                0 <= i <= n,
                r@.len() == i,
                forall|j: int| 0 <= j < i ==> *r@[j] == self.unstable_paths@[j],
            decreases n - i,
        {
            r.push(&self.unstable_paths[i]);
            i += 1;
        }
        r
    }

    /// Returns all stable path variants, each with the version it was
    /// introduced in, in ascending version order.
    pub fn stable_paths(&self) -> (r: Vec<(Version, &Metadata)>)
        ensures
            r@.len() == self.stable_paths@.len(),
            forall|i: int|
                0 <= i < r@.len() ==> #[trigger] r@[i].0 == self.stable_paths@[i].0 && *r@[i].1
                    == self.stable_paths@[i].1,
    {
        let n: usize = self.stable_paths.len();
        let mut r: Vec<(Version, &Metadata)> = Vec::new();
        let mut i: usize = 0;
        while i < n
            invariant
                n == self.stable_paths@.len(),
                0 <= i <= n,
                r@.len() == i,
                forall|j: int|
                    0 <= j < i ==> #[trigger] r@[j].0 == self.stable_paths@[j].0 && *r@[j].1
                        == self.stable_paths@[j].1,
            decreases n - i,
        {
            let pair: &(Version, Metadata) = &self.stable_paths[i];
            r.push((pair.0, &pair.1));
            i += 1;
        }
        r
    }

    /// Returns all path variants: the unstable ones in registration order,
    /// then the stable ones in ascending version order.
    pub fn all_paths(&self) -> (r: Vec<&Metadata>)
        ensures
            r@.len() == self.unstable_paths@.len() + self.stable_paths@.len(),
            forall|i: int|
                0 <= i < self.unstable_paths@.len() ==> *r@[i] == self.unstable_paths@[i],
            forall|i: int|
                self.unstable_paths@.len() <= i < r@.len() ==> *r@[i] == self.stable_paths@[i
                    - self.unstable_paths@.len()].1,
    {
        let mut r: Vec<&Metadata> = Vec::new();
        let nu: usize = self.unstable_paths.len();
        let mut i: usize = 0;
        while i < nu
            invariant
                nu == self.unstable_paths@.len(),
                0 <= i <= nu,
                r@.len() == i,
                forall|j: int| 0 <= j < i ==> *r@[j] == self.unstable_paths@[j],
            decreases nu - i,
        {
            r.push(&self.unstable_paths[i]);
            i += 1;
        }
        let ns: usize = self.stable_paths.len();
        let mut k: usize = 0;
        while k < ns
            invariant
                nu == self.unstable_paths@.len(),
                ns == self.stable_paths@.len(),
                0 <= k <= ns,
                r@.len() == nu + k,
                forall|j: int| 0 <= j < nu ==> *r@[j] == self.unstable_paths@[j],
                forall|j: int| nu <= j < nu + k ==> *r@[j] == self.stable_paths@[j - nu].1,
            decreases ns - k,
        {
            let pair: &(Version, Metadata) = &self.stable_paths[k];
            r.push(&pair.1);
            k += 1;
        }
        r
    }

    /// Picks the last unstable variant, if one exists.
    #[must_use]
    pub fn unstable(&self) -> (r: Option<&Metadata>)
        ensures
            match r {
                Some(m) => self.spec_unstable() == Some(*m),
                None => self.spec_unstable() is None,
            },
    {
        let n: usize = self.unstable_paths.len();
        if n > 0 {
            Some(&self.unstable_paths[n - 1])
        } else {
            None
        }
    }
}

/// Whether some version in the slice is at least `v`.
fn any_versions_ge(versions: &[Version], v: Version) -> (r: bool)
    ensures
        r == any_ge(versions@, v),
{
    let n: usize = versions.len();
    let mut i: usize = 0;
    while i < n
        invariant
            n == versions@.len(),
            0 <= i <= n,
            forall|j: int| 0 <= j < i ==> versions@[j] < v,
        decreases n - i,
    {
        if versions[i] >= v {
            assert(versions@[i as int] >= v);
            return true;
        }
        i += 1;
    }
    false
}

/// Whether every version in the slice is at least `v`.
fn all_versions_ge(versions: &[Version], v: Version) -> (r: bool)
    ensures
        r == all_ge(versions@, v),
{
    let n: usize = versions.len();
    let mut i: usize = 0;
    while i < n
        invariant
            n == versions@.len(),
            0 <= i <= n,
            forall|j: int| 0 <= j < i ==> versions@[j] >= v,
        decreases n - i,
    {
        if versions[i] < v {
            assert(versions@[i as int] < v);
            return false;
        }
        i += 1;
    }
    true
}

/// A `Stable` decision guarantees a qualifying stable entry: if some
/// candidate reaches the first entry's version, the reverse scan finds an
/// entry.
proof fn lemma_stable_choice_some(paths: Seq<(Version, Metadata)>, versions: Seq<Version>)
    requires
        paths.len() > 0,
        any_ge(versions, paths[0].0),
    ensures
        stable_choice(paths, versions) is Some,
    decreases paths.len(),
{
    if !any_ge(versions, paths.last().0) {
        if paths.len() == 1 {
            assert(paths.last() == paths[0]);
        } else {
            assert(paths.drop_last()[0] == paths[0]);
            lemma_stable_choice_some(paths.drop_last(), versions);
        }
    }
}

/// Dropping the last entry keeps the stable entries strictly ascending.
proof fn lemma_sorted_drop_last(paths: Seq<(Version, Metadata)>)
    requires
        stable_versions_sorted(paths),
        paths.len() > 0,
    ensures
        stable_versions_sorted(paths.drop_last()),
{
    assert forall|i: int, j: int|
        0 <= i < j < paths.drop_last().len() implies paths.drop_last()[i].0
        < paths.drop_last()[j].0 by {
        assert(paths.drop_last()[i] == paths[i]);
        assert(paths.drop_last()[j] == paths[j]);
    }
}

/// A version reached by some candidate of `vs1` is reached by some candidate
/// of any `vs2` that contains every candidate of `vs1`.
proof fn lemma_any_ge_superset(vs1: Seq<Version>, vs2: Seq<Version>, v: Version)
    requires
        any_ge(vs1, v),
        forall|i: int| 0 <= i < vs1.len() ==> contains_version(vs2, #[trigger] vs1[i]),
    ensures
        any_ge(vs2, v),
{
    let i = choose|i: int| 0 <= i < vs1.len() && vs1[i] >= v;
    assert(contains_version(vs2, vs1[i]));
    let j = choose|j: int| 0 <= j < vs2.len() && vs2[j] == vs1[i];
    assert(vs2[j] >= v);
}

/// With strictly ascending entries, a selected entry's version never exceeds
/// the last entry's.
proof fn lemma_stable_choice_version_bound(paths: Seq<(Version, Metadata)>, versions: Seq<Version>)
    requires
        stable_versions_sorted(paths),
        paths.len() > 0,
    ensures
        match stable_choice(paths, versions) {
            Some(p) => p.0 <= paths.last().0,
            None => true,
        },
    decreases paths.len(),
{
    reveal_with_fuel(stable_choice, 2);
    if !any_ge(versions, paths.last().0) && paths.len() > 1 {
        lemma_sorted_drop_last(paths);
        lemma_stable_choice_version_bound(paths.drop_last(), versions);
        assert(paths.drop_last().last() == paths[paths.len() - 2]);
        assert(paths[paths.len() - 2].0 < paths[paths.len() - 1].0);
        assert(paths.last() == paths[paths.len() - 1]);
    }
}

/// Stable variant selection is monotonic in the candidate set: if `vs2`
/// contains every candidate of `vs1`, then whenever `vs1` selects a stable
/// entry, `vs2` selects one too, of the same or a later version.
pub proof fn lemma_stable_choice_monotonic(
    paths: Seq<(Version, Metadata)>,
    vs1: Seq<Version>,
    vs2: Seq<Version>,
)
    requires
        stable_versions_sorted(paths),
        forall|i: int| 0 <= i < vs1.len() ==> contains_version(vs2, #[trigger] vs1[i]),
    ensures
        match (stable_choice(paths, vs1), stable_choice(paths, vs2)) {
            (Some(chosen1), Some(chosen2)) => chosen1.0 <= chosen2.0,
            (Some(_), None) => false,
            _ => true,
        },
    decreases paths.len(),
{
    if paths.len() == 0 {
    } else if any_ge(vs2, paths.last().0) {
        if stable_choice(paths, vs1) is Some {
            lemma_stable_choice_version_bound(paths, vs1);
        }
    } else {
        if any_ge(vs1, paths.last().0) {
            lemma_any_ge_superset(vs1, vs2, paths.last().0);
        }
        lemma_sorted_drop_last(paths);
        lemma_stable_choice_monotonic(paths.drop_last(), vs1, vs2);
    }
}

/// If the endpoint carries a removal marker and every candidate version is
/// at least it, the decision is `Removed`.
pub proof fn lemma_all_removed_decision(
    h: VersionHistory,
    versions: Seq<Version>,
    removed: Version,
)
    requires
        h.removed == Some(removed),
        all_ge(versions, removed),
    ensures
        h.decision(versions) is Removed,
{
}

/// If some candidate version reaches some stable entry's version, and the
/// candidates do not all agree on removal, the decision is `Stable`.
pub proof fn lemma_stable_decision(h: VersionHistory, versions: Seq<Version>, i: int)
    requires
        h.wf(),
        0 <= i < h.stable_paths@.len(),
        any_ge(versions, h.stable_paths@[i].0),
        !opt_all_ge(versions, h.removed),
    ensures
        h.decision(versions) is Stable,
{
    let k = choose|k: int| 0 <= k < versions.len() && versions[k] >= h.stable_paths@[i].0;
    assert(versions[k] >= h.stable_paths@[0].0);
}

/// With no stable entries, no unstable variants, and candidates that do not
/// all agree on removal, the decision is `Unstable` and no variant is
/// selected; by [`VersionHistory::select_endpoint`]'s contract such a call
/// always fails with `NoUnstablePath`.
pub proof fn lemma_select_no_unstable(h: VersionHistory, versions: Seq<Version>)
    requires
        h.stable_paths@.len() == 0,
        h.unstable_paths@.len() == 0,
        !opt_all_ge(versions, h.removed),
    ensures
        h.decision(versions) is Unstable,
        h.spec_select(versions) is None,
{
}

} // verus!

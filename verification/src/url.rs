//! URL construction: renders a path template and query parameters into a
//! full URL string.
//!
//! A path template holds `{name}` placeholders, each substituted with the
//! value of the matching path argument; a placeholder without a matching
//! argument is an error, extra arguments are ignored. Query parameters are
//! urlencoded and appended after a `?` when there are any.

use vstd::prelude::*;

use crate::error::UrlError;

verus! {

/// The views of a list of (name, value) string pairs.
pub open spec fn pairs_view(pairs: Seq<(String, String)>) -> Seq<(Seq<char>, Seq<char>)> {
    pairs.map_values(|p: (String, String)| (p.0@, p.1@))
}

/// The value of the first argument named `name`, if any.
pub open spec fn lookup_arg(
    args: Seq<(Seq<char>, Seq<char>)>,
    name: Seq<char>,
) -> Option<Seq<char>>
    decreases args.len(),
{
    if args.len() == 0 {
        None
    } else if args[0].0 == name {
        Some(args[0].1)
    } else {
        lookup_arg(args.drop_first(), name)
    }
}

/// The state of the template scan: the output rendered so far and, inside a
/// placeholder, the name read so far.
pub struct RenderState {
    /// The rendered output so far.
    pub out: Seq<char>,
    /// The name of the placeholder being read, if the scan is inside one.
    pub ph: Option<Seq<char>>,
}

/// The outcome of scanning part of a template: still going, or stopped at a
/// placeholder with no matching argument.
pub enum Render {
    /// The scan consumed the input and is in the given state.
    Going(RenderState),
    /// The scan hit a placeholder of the given name with no matching
    /// argument.
    Unfilled(Seq<char>),
}

/// Scans `t` one character at a time from state `st`: `{` opens a
/// placeholder, `}` closes it and substitutes the matching argument's value,
/// every other character is copied (into the placeholder's name while one is
/// open, into the output otherwise).
pub open spec fn render_from(
    st: RenderState,
    t: Seq<char>,
    args: Seq<(Seq<char>, Seq<char>)>,
) -> Render
    decreases t.len(),
{
    if t.len() == 0 {
        Render::Going(st)
    } else {
        let c = t[0];
        let rest = t.drop_first();
        match st.ph {
            None => if c == '{' {
                render_from(RenderState { out: st.out, ph: Some(Seq::empty()) }, rest, args)
            } else {
                render_from(RenderState { out: st.out.push(c), ph: None }, rest, args)
            },
            Some(name) => if c == '}' {
                match lookup_arg(args, name) {
                    Some(v) => render_from(
                        RenderState { out: st.out + v, ph: None },
                        rest,
                        args,
                    ),
                    None => Render::Unfilled(name),
                }
            } else {
                render_from(RenderState { out: st.out, ph: Some(name.push(c)) }, rest, args)
            },
        }
    }
}

/// The state the template scan starts from: empty output, no open
/// placeholder.
pub open spec fn init_render_state() -> RenderState {
    RenderState { out: Seq::empty(), ph: None }
}

/// The outcome of rendering a whole template.
pub enum RenderedPath {
    /// Every placeholder was filled; the rendered path.
    Done(Seq<char>),
    /// A placeholder was opened and never closed.
    MissingClose,
    /// The placeholder of the given name has no matching argument.
    Unfilled(Seq<char>),
}

/// Renders template `t` with the arguments `args`.
pub open spec fn render_path(t: Seq<char>, args: Seq<(Seq<char>, Seq<char>)>) -> RenderedPath {
    match render_from(init_render_state(), t, args) {
        Render::Going(st) => match st.ph {
            None => RenderedPath::Done(st.out),
            Some(_) => RenderedPath::MissingClose,
        },
        Render::Unfilled(name) => RenderedPath::Unfilled(name),
    }
}

/// The base URL with one trailing `/` removed, if it ends in one.
pub open spec fn strip_base(base: Seq<char>) -> Seq<char> {
    if base.len() > 0 && base.last() == '/' {
        base.drop_last()
    } else {
        base
    }
}

/// What `serde_urlencoded::to_string` returns for a sequence of string
/// pairs; the encoding depends on the pairs alone.
pub uninterp spec fn urlencoded_of(pairs: Seq<(Seq<char>, Seq<char>)>) -> Seq<char>;

/// Whether `http::Uri` accepts `url`; acceptance depends on the characters
/// alone.
pub uninterp spec fn uri_ok(url: Seq<char>) -> bool;

/// The URI that `http::Uri` parses `url` into; parsing is a pure function
/// of the characters.
pub uninterp spec fn uri_of(url: Seq<char>) -> http::Uri;

/// The full URL: stripped base, rendered path, and — only when the encoded
/// query is non-empty — a `?` and the encoded query.
pub open spec fn full_url(base: Seq<char>, path: Seq<char>, query: Seq<char>) -> Seq<char> {
    if query.len() == 0 {
        strip_base(base) + path
    } else {
        strip_base(base) + path + "?"@ + query
    }
}

/// Relies on `serde_urlencoded::to_string`: a sequence of string pairs
/// always serializes (its serializer rejects only non-string shapes), and
/// the encoding depends on the pairs alone.
#[verifier::external_body]
fn urlencode_pairs(pairs: &Vec<(String, String)>) -> (r: Result<String, serde_urlencoded::ser::Error>)
    ensures
        r is Ok,
        r matches Ok(s) ==> s@ == urlencoded_of(pairs_view(pairs@)),
{
    serde_urlencoded::to_string(pairs)
}

/// Relies on `http::Uri::try_from(String)`: a pure parser, so whether a
/// string parses and what it parses into depend on its characters alone. A
/// parse failure is carried as `http::Error`.
#[verifier::external_body]
pub(crate) fn parse_uri(url: String) -> (r: Result<http::Uri, http::Error>)
    ensures
        r is Ok <==> uri_ok(url@),
        r matches Ok(u) ==> u == uri_of(url@),
{
    match http::Uri::try_from(url) {
        Ok(uri) => Ok(uri),
        Err(e) => Err(http::Error::from(e)),
    }
}

/// The base URL with one trailing `/` removed, if it ends in one.
fn strip_trailing_slash(base_url: &str) -> (r: &str)
    ensures
        r@ == strip_base(base_url@),
{
    let n: usize = base_url.unicode_len();
    if n > 0 && base_url.get_char(n - 1) == '/' {
        let r = base_url.substring_char(0, n - 1);
        proof {
            assert(base_url@.subrange(0, base_url@.len() - 1) =~= base_url@.drop_last());
        }
        r
    } else {
        base_url
    }
}

/// The value of the first argument named `name`, if any.
fn lookup<'a>(args: &'a Vec<(String, String)>, name: &String) -> (r: Option<&'a String>)
    ensures
        match r {
            Some(v) => lookup_arg(pairs_view(args@), name@) == Some(v@),
            None => lookup_arg(pairs_view(args@), name@) is None,
        },
{
    let ghost pv = pairs_view(args@);
    proof {
        assert(pv.skip(0) =~= pv);
    }
    let n: usize = args.len();
    let mut i: usize = 0;
    while i < n
        invariant
            n == args@.len(),
            pv == pairs_view(args@),
            0 <= i <= n,
            lookup_arg(pv, name@) == lookup_arg(pv.skip(i as int), name@),
        decreases n - i,
    {
        proof {
            assert(pv.skip(i as int)[0] == (args@[i as int].0@, args@[i as int].1@));
            assert(pv.skip(i as int).drop_first() =~= pv.skip(i as int + 1));
        }
        let pair: &(String, String) = &args[i];
        if pair.0.eq(name) {
            return Some(&pair.1);
        }
        i += 1;
    }
    proof {
        assert(pv.skip(n as int) =~= Seq::<(Seq<char>, Seq<char>)>::empty());
    }
    None
}

/// Renders the path template with the given arguments.
fn render_template(template: &str, args: &Vec<(String, String)>) -> (r: Result<String, UrlError>)
    ensures
        match render_path(template@, pairs_view(args@)) {
            RenderedPath::Done(p) => r matches Ok(s) && s@ == p,
            RenderedPath::MissingClose => r matches Err(e) && e == UrlError::InvalidEndpoint,
            RenderedPath::Unfilled(n) => r matches Err(e) && (e matches UrlError::UnfilledField(f)
                && f@ == n),
        },
{
    let ghost pargs = pairs_view(args@);
    let n: usize = template.unicode_len();
    let mut out = String::new();
    let mut in_ph: bool = false;
    let mut name = String::new();
    let mut i: usize = 0;
    proof {
        assert(template@.skip(0) =~= template@);
    }
    while i < n
        invariant
            n == template@.len(),
            pargs == pairs_view(args@),
            0 <= i <= n,
            !in_ph ==> name@ == Seq::<char>::empty(),
            render_from(init_render_state(), template@, pargs) == render_from(
                RenderState { out: out@, ph: if in_ph { Some(name@) } else { None } },
                template@.skip(i as int),
                pargs,
            ),
        decreases n - i,
    {
        proof {
            let t = template@.skip(i as int);
            assert(t[0] == template@[i as int]);
            assert(t.drop_first() =~= template@.skip(i as int + 1));
        }
        let c = template.get_char(i);
        if !in_ph {
            if c == '{' {
                in_ph = true;
            } else {
                let ghost out0 = out@;
                out.append(template.substring_char(i, i + 1));
                proof {
                    assert(out@ =~= out0.push(template@[i as int]));
                }
            }
        } else {
            if c == '}' {
                match lookup(args, &name) {
                    Some(v) => {
                        let ghost out0 = out@;
                        out.append(v.as_str());
                        in_ph = false;
                        name = String::new();
                        proof {
                            assert(out@ == out0 + v@);
                        }
                    },
                    None => {
                        return Err(UrlError::UnfilledField(name));
                    },
                }
            } else {
                let ghost name0 = name@;
                name.append(template.substring_char(i, i + 1));
                proof {
                    assert(name@ =~= name0.push(template@[i as int]));
                }
            }
        }
        i += 1;
    }
    proof {
        assert(template@.skip(n as int) =~= Seq::<char>::empty());
    }
    if in_ph {
        Err(UrlError::InvalidEndpoint)
    } else {
        Ok(out)
    }
}

/// Builds the full URL: strips one trailing `/` from `base_url`, renders the
/// path template with `path_args`, and appends the urlencoded
/// `query_params` after a `?` when there are any.
pub fn construct_url(
    base_url: &str,
    path_template: &str,
    path_args: &Vec<(String, String)>,
    query_params: &Vec<(String, String)>,
) -> (r: Result<String, UrlError>)
    ensures
        match render_path(path_template@, pairs_view(path_args@)) {
            RenderedPath::Done(p) => r matches Ok(s) && s@ == full_url(
                base_url@,
                p,
                urlencoded_of(pairs_view(query_params@)),
            ),
            RenderedPath::MissingClose => r matches Err(e) && e == UrlError::InvalidEndpoint,
            RenderedPath::Unfilled(n) => r matches Err(e) && (e matches UrlError::UnfilledField(f)
                && f@ == n),
        },
{
    let rendered = match render_template(path_template, path_args) {
        Ok(s) => s,
        Err(e) => {
            return Err(e);
        },
    };
    let mut url = String::new();
    url.append(strip_trailing_slash(base_url));
    url.append(rendered.as_str());
    let encoded = match urlencode_pairs(query_params) {
        Ok(s) => s,
        Err(_) => vstd::pervasive::unreached(),
    };
    if !encoded.as_str().is_empty() {
        url.append("?");
        url.append(encoded.as_str());
    }
    proof {
        let q = urlencoded_of(pairs_view(query_params@));
        if q.len() == 0 {
            assert(url@ =~= full_url(base_url@, rendered@, q));
        } else {
            assert(url@ =~= full_url(base_url@, rendered@, q));
        }
    }
    Ok(url)
}

} // verus!

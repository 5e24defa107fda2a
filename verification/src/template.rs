use vstd::prelude::*;

use crate::errors::PolicyError;

verus! {

/// One named value handed to the renderer.
pub struct Binding {
    pub key: String,
    pub value: String,
}

/// The mathematical content of a binding: its key and value as
/// character sequences.
pub struct BindingModel {
    pub key: Seq<char>,
    pub value: Seq<char>,
}

impl View for Binding {
    type V = BindingModel;

    open spec fn view(&self) -> BindingModel {
        BindingModel { key: self.key@, value: self.value@ }
    }
}

/// The abstract binding environment of a concrete binding list.
pub open spec fn env_model(env: Seq<Binding>) -> Seq<BindingModel> {
    env.map_values(|b: Binding| b@)
}

/// The value an environment gives to `key`; the earliest binding wins.
pub open spec fn env_lookup(env: Seq<BindingModel>, key: Seq<char>) -> Option<Seq<char>>
    decreases env.len(),
{
    if env.len() == 0 {
        None
    } else if env[0].key == key {
        Some(env[0].value)
    } else {
        env_lookup(env.skip(1), key)
    }
}

/// A placeholder opens at position `i` of `t`: two left braces stand there.
pub open spec fn opens_at(t: Seq<char>, i: int) -> bool {
    &&& 0 <= i
    &&& i + 2 <= t.len()
    &&& t[i] == '{'
    &&& t[i + 1] == '{'
}

/// A placeholder closes at position `i` of `t`: two right braces stand there.
pub open spec fn closes_at(t: Seq<char>, i: int) -> bool {
    &&& 0 <= i
    &&& i + 2 <= t.len()
    &&& t[i] == '}'
    &&& t[i + 1] == '}'
}

/// The first position at or after `i` where a placeholder closes.
pub open spec fn find_close(t: Seq<char>, i: int) -> Option<int>
    decreases t.len() - i,
{
    if i < 0 || i + 2 > t.len() {
        None
    } else if closes_at(t, i) {
        Some(i)
    } else {
        find_close(t, i + 1)
    }
}

pub proof fn lemma_find_close_bounds(t: Seq<char>, i: int, j: int)
    requires
        find_close(t, i) == Some(j),
    ensures
        i <= j,
        closes_at(t, j),
    decreases t.len() - i,
{
    if i < 0 || i + 2 > t.len() {
    } else if closes_at(t, i) {
    } else {
        lemma_find_close_bounds(t, i + 1, j);
    }
}

/// If no placeholder closes anywhere in `[i, j)`, the search from `i`
/// and the search from `j` agree.
pub proof fn lemma_find_close_from(t: Seq<char>, i: int, j: int)
    requires
        0 <= i <= j,
        forall|m: int| i <= m < j ==> !closes_at(t, m),
    ensures
        find_close(t, i) == find_close(t, j),
    decreases j - i,
{
    if i < j {
        if i + 2 > t.len() {
            assert(j + 2 > t.len());
            assert(find_close(t, j) is None);
        } else {
            lemma_find_close_from(t, i + 1, j);
        }
    }
}

/// Strict rendering of the template tail that starts at position `i`.
///
/// A placeholder is `{{` key `}}`; the key runs to the first closing pair of
/// braces.  Every other character is literal output.  `None` means the
/// rendering fails: a placeholder was left unclosed, or it referenced a key
/// the environment does not define.  Failure is never degraded to empty
/// output.
pub open spec fn render_from(t: Seq<char>, i: int, env: Seq<BindingModel>) -> Option<Seq<char>>
    decreases t.len() - i,
    via render_from_decreases
{
    if i + 2 > t.len() {
        Some(t.skip(i))
    } else if opens_at(t, i) {
        match find_close(t, i + 2) {
            None => None,
            Some(j) => match env_lookup(env, t.subrange(i + 2, j)) {
                None => None,
                Some(v) => match render_from(t, j + 2, env) {
                    None => None,
                    Some(rest) => Some(v + rest),
                },
            },
        }
    } else {
        match render_from(t, i + 1, env) {
            None => None,
            Some(rest) => Some(seq![t[i]] + rest),
        }
    }
}

#[via_fn]
proof fn render_from_decreases(t: Seq<char>, i: int, env: Seq<BindingModel>) {
    if i + 2 <= t.len() && opens_at(t, i) {
        if let Some(j) = find_close(t, i + 2) {
            lemma_find_close_bounds(t, i + 2, j);
        }
    }
}

/// Strict rendering of a whole template against an environment.
pub open spec fn spec_render(t: Seq<char>, env: Seq<BindingModel>) -> Option<Seq<char>> {
    render_from(t, 0, env)
}

/// Output already produced, joined with the rendering of the remaining tail.
pub open spec fn opt_prepend(p: Seq<char>, r: Option<Seq<char>>) -> Option<Seq<char>> {
    match r {
        None => None,
        Some(s) => Some(p + s),
    }
}

proof fn lemma_env_lookup_skip(env: Seq<BindingModel>, key: Seq<char>, k: int)
    requires
        0 <= k <= env.len(),
        forall|m: int| 0 <= m < k ==> env[m].key != key,
    ensures
        env_lookup(env, key) == env_lookup(env.skip(k), key),
    decreases k,
{
    if k == 0 {
        assert(env.skip(0) =~= env);
    } else {
        assert(env[0].key != key);
        assert(env_lookup(env, key) == env_lookup(env.skip(1), key));
        assert(forall|m: int| 0 <= m < k - 1 ==> env.skip(1)[m] == env[m + 1]);
        lemma_env_lookup_skip(env.skip(1), key, k - 1);
        assert(env.skip(1).skip(k - 1) =~= env.skip(k));
    }
}

/// Every value an environment hands out belongs to one of its bindings.
pub proof fn lemma_env_lookup_is_bound(env: Seq<BindingModel>, key: Seq<char>)
    requires
        env_lookup(env, key) is Some,
    ensures
        exists|m: int|
            0 <= m < env.len() && env[m].value == env_lookup(env, key)->Some_0,
    decreases env.len(),
{
    if env.len() > 0 && env[0].key != key {
        lemma_env_lookup_is_bound(env.skip(1), key);
        let m0 = choose|m: int|
            0 <= m < env.skip(1).len() && env.skip(1)[m].value == env_lookup(
                env.skip(1),
                key,
            )->Some_0;
        assert(env[m0 + 1] == env.skip(1)[m0]);
    }
}

/// The set of keys the template tail starting at `i` references through
/// closed placeholders.
pub open spec fn refs_from(t: Seq<char>, i: int) -> Set<Seq<char>>
    decreases t.len() - i,
    via refs_from_decreases
{
    if i + 2 > t.len() {
        Set::empty()
    } else if opens_at(t, i) {
        match find_close(t, i + 2) {
            None => Set::empty(),
            Some(j) => refs_from(t, j + 2).insert(t.subrange(i + 2, j)),
        }
    } else {
        refs_from(t, i + 1)
    }
}

#[via_fn]
proof fn refs_from_decreases(t: Seq<char>, i: int) {
    if i + 2 <= t.len() && opens_at(t, i) {
        if let Some(j) = find_close(t, i + 2) {
            lemma_find_close_bounds(t, i + 2, j);
        }
    }
}

/// Every placeholder that opens in the tail starting at `i` also closes.
pub open spec fn closed_from(t: Seq<char>, i: int) -> bool
    decreases t.len() - i,
    via closed_from_decreases
{
    if i + 2 > t.len() {
        true
    } else if opens_at(t, i) {
        match find_close(t, i + 2) {
            None => false,
            Some(j) => closed_from(t, j + 2),
        }
    } else {
        closed_from(t, i + 1)
    }
}

#[via_fn]
proof fn closed_from_decreases(t: Seq<char>, i: int) {
    if i + 2 <= t.len() && opens_at(t, i) {
        if let Some(j) = find_close(t, i + 2) {
            lemma_find_close_bounds(t, i + 2, j);
        }
    }
}

/// No left brace at all occurs in `s`.
pub open spec fn brace_free(s: Seq<char>) -> bool {
    forall|k: int| 0 <= k < s.len() ==> s[k] != '{'
}

/// Every left brace in the tail starting at `i` opens a closed placeholder:
/// nothing that looks like the start of a placeholder survives as literal
/// text.
pub open spec fn clean_from(t: Seq<char>, i: int) -> bool
    decreases t.len() - i,
    via clean_from_decreases
{
    if i + 2 > t.len() {
        forall|k: int| i <= k < t.len() ==> t[k] != '{'
    } else if t[i] == '{' {
        opens_at(t, i) && match find_close(t, i + 2) {
            None => false,
            Some(j) => clean_from(t, j + 2),
        }
    } else {
        clean_from(t, i + 1)
    }
}

#[via_fn]
proof fn clean_from_decreases(t: Seq<char>, i: int) {
    if i + 2 <= t.len() && t[i] == '{' && opens_at(t, i) {
        if let Some(j) = find_close(t, i + 2) {
            lemma_find_close_bounds(t, i + 2, j);
        }
    }
}

/// Strictness: a template that references a key the environment does not
/// define never renders; the failure is never degraded to empty output.
pub proof fn lemma_undefined_reference_fails(
    t: Seq<char>,
    env: Seq<BindingModel>,
    key: Seq<char>,
    i: int,
)
    requires
        refs_from(t, i).contains(key),
        env_lookup(env, key) is None,
    ensures
        render_from(t, i, env) is None,
    decreases t.len() - i,
{
    if i + 2 > t.len() {
        // refs_from is empty here, contradicting the requires
    } else if opens_at(t, i) {
        match find_close(t, i + 2) {
            None => {},
            Some(j) => {
                lemma_find_close_bounds(t, i + 2, j);
                if t.subrange(i + 2, j) == key {
                } else {
                    lemma_undefined_reference_fails(t, env, key, j + 2);
                }
            },
        }
    } else {
        lemma_undefined_reference_fails(t, env, key, i + 1);
    }
}

/// Totality: a template whose placeholders all close, rendered against an
/// environment that defines every referenced key, always renders.
pub proof fn lemma_full_bindings_render(t: Seq<char>, env: Seq<BindingModel>, i: int)
    requires
        closed_from(t, i),
        forall|k: Seq<char>| refs_from(t, i).contains(k) ==> env_lookup(env, k) is Some,
    ensures
        render_from(t, i, env) is Some,
    decreases t.len() - i,
{
    if i + 2 > t.len() {
    } else if opens_at(t, i) {
        let j = find_close(t, i + 2)->Some_0;
        lemma_find_close_bounds(t, i + 2, j);
        assert(refs_from(t, i).contains(t.subrange(i + 2, j)));
        assert(refs_from(t, i) == refs_from(t, j + 2).insert(t.subrange(i + 2, j)));
        assert(forall|k: Seq<char>|
            refs_from(t, j + 2).contains(k) ==> #[trigger] env_lookup(env, k) is Some) by {
            assert(forall|k: Seq<char>| #[trigger]
                refs_from(t, j + 2).contains(k) ==> refs_from(t, i).contains(k));
        }
        lemma_full_bindings_render(t, env, j + 2);
    } else {
        assert(refs_from(t, i) == refs_from(t, i + 1));
        assert(forall|k: Seq<char>|
            refs_from(t, i + 1).contains(k) ==> #[trigger] env_lookup(env, k) is Some);
        lemma_full_bindings_render(t, env, i + 1);
    }
}

/// No unexpanded placeholder: a clean template rendered against brace-free
/// values yields output with no left brace, so nothing in it can still be
/// mistaken for a placeholder.
pub proof fn lemma_rendered_output_brace_free(t: Seq<char>, env: Seq<BindingModel>, i: int)
    requires
        0 <= i <= t.len(),
        clean_from(t, i),
        forall|m: int| 0 <= m < env.len() ==> brace_free(#[trigger] env[m].value),
        render_from(t, i, env) is Some,
    ensures
        brace_free(render_from(t, i, env)->Some_0),
    decreases t.len() - i,
{
    let out = render_from(t, i, env)->Some_0;
    if i + 2 > t.len() {
        assert(forall|k: int| 0 <= k < out.len() ==> out[k] == t[i + k]);
    } else if opens_at(t, i) {
        let j = find_close(t, i + 2)->Some_0;
        lemma_find_close_bounds(t, i + 2, j);
        let v = env_lookup(env, t.subrange(i + 2, j))->Some_0;
        lemma_env_lookup_is_bound(env, t.subrange(i + 2, j));
        lemma_rendered_output_brace_free(t, env, j + 2);
        let rest = render_from(t, j + 2, env)->Some_0;
        assert(forall|k: int|
            0 <= k < out.len() ==> out[k] == if k < v.len() {
                v[k]
            } else {
                rest[k - v.len()]
            });
    } else {
        lemma_rendered_output_brace_free(t, env, i + 1);
        let rest = render_from(t, i + 1, env)->Some_0;
        assert(forall|k: int|
            0 <= k < out.len() ==> out[k] == if k < 1 {
                t[i]
            } else {
                rest[k - 1]
            });
    }
}

/// Finds the value bound to `key`, if any; the earliest binding wins.
fn lookup(env: &Vec<Binding>, key: &str) -> (r: Option<String>)
    ensures
        match r {
            Some(v) => env_lookup(env_model(env@), key@) == Some(v@),
            None => env_lookup(env_model(env@), key@) is None,
        },
{
    let key_owned: String = key.to_owned();
    let ghost m = env_model(env@);
    let n = env.len();
    let mut k: usize = 0;
    while k < n
        invariant
            k <= n,
            n == env.len(),
            m == env_model(env@),
            key_owned@ == key@,
            forall|q: int| 0 <= q < k ==> m[q].key != key@,
        decreases n - k,
    {
        if env[k].key.eq(&key_owned) {
            proof {
                lemma_env_lookup_skip(m, key@, k as int);
                assert(m.skip(k as int)[0] == m[k as int]);
            }
            return Some(env[k].value.clone());
        }
        k = k + 1;
    }
    proof {
        lemma_env_lookup_skip(m, key@, n as int);
        assert(m.skip(n as int).len() == 0);
    }
    None
}

/// True when two left braces stand at character position `i` of `t`.
fn opens_here(t: &str, i: usize) -> (r: bool)
    ensures
        r == opens_at(t@, i as int),
{
    let n = t.unicode_len();
    if i < n && i + 1 < n {
        t.get_char(i) == '{' && t.get_char(i + 1) == '{'
    } else {
        false
    }
}

/// True when two right braces stand at character position `i` of `t`.
fn closes_here(t: &str, i: usize) -> (r: bool)
    ensures
        r == closes_at(t@, i as int),
{
    let n = t.unicode_len();
    if i < n && i + 1 < n {
        t.get_char(i) == '}' && t.get_char(i + 1) == '}'
    } else {
        false
    }
}

/// Renders `t` against `env`, strictly: each `{{key}}` placeholder is
/// replaced by the value bound to `key`, and an unclosed placeholder or an
/// unbound key fails with `TemplateError` instead of expanding to anything.
pub fn render(t: &str, env: &Vec<Binding>) -> (r: Result<String, PolicyError>)
    ensures
        match spec_render(t@, env_model(env@)) {
            Some(out) => r matches Ok(s) && s@ == out,
            None => r == Err::<String, PolicyError>(PolicyError::TemplateError),
        },
{
    let ghost envm = env_model(env@);
    let n = t.unicode_len();
    let mut out = String::new();
    let mut i: usize = 0;
    proof {
        match render_from(t@, 0, envm) {
            Some(s) => {
                assert(Seq::<char>::empty() + s =~= s);
            },
            None => {},
        }
    }
    while i < n
        invariant
            i <= n,
            n == t@.len(),
            envm == env_model(env@),
            opt_prepend(out@, render_from(t@, i as int, envm)) == spec_render(t@, envm),
        decreases n - i,
    {
        if opens_here(t, i) {
            // scan for the first closing pair of braces
            let mut j: usize = i + 2;
            while j < n - 1 && !closes_here(t, j)
                invariant
                    i + 2 <= j <= n,
                    n == t@.len(),
                    forall|m: int| i + 2 <= m < j ==> !closes_at(t@, m),
                decreases n - j,
            {
                j = j + 1;
            }
            if !closes_here(t, j) {
                proof {
                    lemma_find_close_from(t@, i as int + 2, j as int);
                    assert(find_close(t@, j as int) is None);
                    assert(render_from(t@, i as int, envm) is None);
                }
                return Err(PolicyError::TemplateError);
            }
            proof {
                lemma_find_close_from(t@, i as int + 2, j as int);
                assert(find_close(t@, i as int + 2) == Some(j as int));
            }
            let key = t.substring_char(i + 2, j);
            proof {
                assert(key@ == t@.subrange(i as int + 2, j as int));
            }
            match lookup(env, key) {
                None => {
                    proof {
                        assert(render_from(t@, i as int, envm) is None);
                    }
                    return Err(PolicyError::TemplateError);
                },
                Some(v) => {
                    proof {
                        let rest = render_from(t@, j as int + 2, envm);
                        match rest {
                            Some(s) => {
                                assert((out@ + v@) + s =~= out@ + (v@ + s));
                            },
                            None => {},
                        }
                    }
                    out.append(v.as_str());
                    i = j + 2;
                },
            }
        } else {
            proof {
                let rest = render_from(t@, i as int + 1, envm);
                match rest {
                    Some(s) => {
                        assert(t@.subrange(i as int, i as int + 1) =~= seq![t@[i as int]]);
                        assert((out@ + seq![t@[i as int]]) + s =~= out@ + (seq![t@[i as int]]
                            + s));
                    },
                    None => {},
                }
            }
            out.append(t.substring_char(i, i + 1));
            i = i + 1;
        }
    }
    proof {
        assert(t@.skip(n as int) =~= Seq::<char>::empty());
        assert(out@ + Seq::<char>::empty() =~= out@);
    }
    Ok(out)
}

} // verus!

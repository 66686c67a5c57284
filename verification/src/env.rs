//! The environment chain: nested name-to-value scopes with parent links.
//!
//! Scopes live in an arena ([`EnvStore`]) and refer to their enclosing scope
//! by index; sharing a scope means holding the same index.  A parent always
//! has a smaller index than its children (it was allocated first), so every
//! chain from a scope to the global root is a simple path, never a cycle —
//! that is the well-formedness invariant [`wf_envs`], and it is what makes
//! the chain walks below terminate.

use vstd::prelude::*;
use crate::value::{Value, ValueM};
use crate::errors::{ControlFlow, CtlM, ErrKindM, Error, ResultExec};

verus! {

/// One lexical scope: an insertion-ordered mapping from names to values, plus
/// the index of the enclosing scope (`None` only for the global scope).
pub struct Environment {
    pub values: Vec<(String, Value)>,
    pub enclosing: Option<usize>,
}

/// Model of one scope.
#[verifier::ext_equal]
pub struct EnvM {
    pub values: Seq<(Seq<char>, ValueM)>,
    pub enclosing: Option<usize>,
}

impl View for Environment {
    type V = EnvM;

    open spec fn view(&self) -> EnvM {
        EnvM {
            values: self.values@.map_values(|p: (String, Value)| (p.0@, p.1@)),
            enclosing: self.enclosing,
        }
    }
}

/// The arena of scopes.  Index 0, once allocated, is the global scope.
pub struct EnvStore {
    pub envs: Vec<Environment>,
}

impl View for EnvStore {
    type V = Seq<EnvM>;

    open spec fn view(&self) -> Seq<EnvM> {
        self.envs@.map_values(|e: Environment| e@)
    }
}

/// The scope at `i` encloses only downwards.
pub open spec fn env_wf_at(envs: Seq<EnvM>, i: int) -> bool {
    match envs[i].enclosing {
        Some(p) => p < i,
        None => true,
    }
}

/// Parents come before children: every enclosing index points strictly
/// downwards, so parent chains are acyclic.
pub open spec fn wf_envs(envs: Seq<EnvM>) -> bool {
    forall|i: int| 0 <= i < envs.len() ==> #[trigger] env_wf_at(envs, i)
}

/// The position of the latest binding for `name` in one scope, or `-1` when
/// the scope does not bind it.
pub open spec fn s_find_idx(values: Seq<(Seq<char>, ValueM)>, name: Seq<char>) -> int
    decreases values.len(),
{
    if values.len() == 0 {
        -1
    } else if values.last().0 == name {
        values.len() - 1
    } else {
        s_find_idx(values.drop_last(), name)
    }
}

/// The value bound to `name` in one scope: the latest binding wins.
pub open spec fn s_find(values: Seq<(Seq<char>, ValueM)>, name: Seq<char>) -> Option<ValueM> {
    let i = s_find_idx(values, name);
    if i >= 0 {
        Some(values[i].1)
    } else {
        None
    }
}

/// One scope's bindings after `define(name, value)`: the latest binding for
/// `name` is replaced in place, or a new binding is appended.
pub open spec fn s_def_in(
    values: Seq<(Seq<char>, ValueM)>,
    name: Seq<char>,
    v: ValueM,
) -> Seq<(Seq<char>, ValueM)> {
    let i = s_find_idx(values, name);
    if i >= 0 {
        values.update(i, (name, v))
    } else {
        values.push((name, v))
    }
}

/// What [`s_find_idx`] yields: the position of the latest binding for `name`,
/// or `-1` when there is none.
pub proof fn lemma_find_idx(values: Seq<(Seq<char>, ValueM)>, name: Seq<char>)
    ensures
        ({
            let i = s_find_idx(values, name);
            &&& -1 <= i < values.len()
            &&& i >= 0 ==> values[i].0 == name && (forall|j: int|
                i < j < values.len() ==> values[j].0 != name)
            &&& i == -1 ==> (forall|j: int| 0 <= j < values.len() ==> values[j].0 != name)
        }),
    decreases values.len(),
{
    if values.len() > 0 && values.last().0 != name {
        lemma_find_idx(values.drop_last(), name);
        assert(forall|j: int|
            0 <= j < values.len() - 1 ==> values[j] == values.drop_last()[j]);
    }
}

/// Name-based lookup through the scope chain starting at `at`.
pub open spec fn s_get(envs: Seq<EnvM>, at: usize, name: Seq<char>) -> Option<ValueM>
    decreases at,
{
    match s_find(envs[at as int].values, name) {
        Some(v) => Some(v),
        None => match envs[at as int].enclosing {
            Some(p) => if p < at {
                s_get(envs, p, name)
            } else {
                None
            },
            None => None,
        },
    }
}

/// The chain after `assign(name, value)` starting at `at`: the nearest scope
/// that already binds `name` is updated; `None` when no scope in the chain
/// binds it.
pub open spec fn s_assign(envs: Seq<EnvM>, at: usize, name: Seq<char>, v: ValueM) -> Option<
    Seq<EnvM>,
>
    decreases at,
{
    if s_find(envs[at as int].values, name) is Some {
        Some(
            envs.update(
                at as int,
                EnvM {
                    values: s_def_in(envs[at as int].values, name, v),
                    enclosing: envs[at as int].enclosing,
                },
            ),
        )
    } else {
        match envs[at as int].enclosing {
            Some(p) => if p < at {
                s_assign(envs, p, name, v)
            } else {
                None
            },
            None => None,
        }
    }
}

/// The scope exactly `distance` parent links above `at`, when the chain is
/// that long.
pub open spec fn s_ancestor(envs: Seq<EnvM>, at: usize, distance: usize) -> Option<usize>
    decreases distance,
{
    if distance == 0 {
        Some(at)
    } else {
        match envs[at as int].enclosing {
            Some(p) => if p < at {
                s_ancestor(envs, p, (distance - 1) as usize)
            } else {
                None
            },
            None => None,
        }
    }
}

/// The chain after `define(name, value)` in the scope `at` itself.
pub open spec fn s_define(envs: Seq<EnvM>, at: usize, name: Seq<char>, v: ValueM) -> Seq<EnvM> {
    envs.update(
        at as int,
        EnvM {
            values: s_def_in(envs[at as int].values, name, v),
            enclosing: envs[at as int].enclosing,
        },
    )
}

/// The chain after allocating a fresh empty scope enclosed by `parent`.
pub open spec fn s_push_env(envs: Seq<EnvM>, parent: usize) -> Seq<EnvM> {
    envs.push(EnvM { values: Seq::empty(), enclosing: Some(parent) })
}

/// Defining a binding never disturbs the parent links, so well-formedness is
/// preserved.
pub proof fn lemma_wf_define(envs: Seq<EnvM>, at: usize, name: Seq<char>, v: ValueM)
    requires
        wf_envs(envs),
        at < envs.len(),
    ensures
        wf_envs(s_define(envs, at, name, v)),
{
    let envs2 = s_define(envs, at, name, v);
    assert forall|i: int| 0 <= i < envs2.len() implies #[trigger] env_wf_at(envs2, i) by {
        assert(env_wf_at(envs, i));
        assert(envs2[i].enclosing == envs[i].enclosing);
    }
}

impl EnvStore {
    /// An empty arena: no scopes at all.
    pub fn new() -> (r: EnvStore)
        ensures
            r@ == Seq::<EnvM>::empty(),
    {
        EnvStore { envs: Vec::new() }
    }

    pub open spec fn wf(&self) -> bool {
        wf_envs(self@)
    }

    /// Allocates a fresh scope with no enclosing scope (the global scope) and
    /// returns its index.
    pub fn push_root(&mut self) -> (r: usize)
        requires
            old(self).wf(),
        ensures
            final(self)@ == old(self)@.push(EnvM { values: Seq::empty(), enclosing: None }),
            r == old(self)@.len(),
            final(self).wf(),
    {
        let r = self.envs.len();
        self.envs.push(Environment { values: Vec::new(), enclosing: None });
        proof {
            assert(self@ =~~= old(self)@.push(EnvM { values: Seq::empty(), enclosing: None }));
            assert forall|i: int| 0 <= i < self@.len() implies #[trigger] env_wf_at(self@, i) by {
                if i < old(self)@.len() {
                    assert(env_wf_at(old(self)@, i));
                }
            }
        }
        r
    }

    /// Allocates a fresh scope enclosed by `parent` and returns its index.
    pub fn from(&mut self, parent: usize) -> (r: usize)
        requires
            old(self).wf(),
            parent < old(self)@.len(),
        ensures
            final(self)@ == s_push_env(old(self)@, parent),
            r == old(self)@.len(),
            final(self).wf(),
    {
        let r = self.envs.len();
        self.envs.push(Environment { values: Vec::new(), enclosing: Some(parent) });
        proof {
            assert(self@ =~~= s_push_env(old(self)@, parent));
            assert forall|i: int| 0 <= i < self@.len() implies #[trigger] env_wf_at(self@, i) by {
                if i < old(self)@.len() {
                    assert(env_wf_at(old(self)@, i));
                }
            }
        }
        r
    }

    /// Binds `name` to `value` in the scope `at`, shadowing any same-named
    /// binding in that scope.  Always succeeds.
    pub fn define(&mut self, at: usize, name: &String, value: Value)
        requires
            old(self).wf(),
            at < old(self)@.len(),
        ensures
            final(self)@ == s_define(old(self)@, at, name@, value@),
            final(self).wf(),
    {
        let found = find_index(&self.envs[at].values, name);
        match found {
            Some(i) => {
                self.envs[at].values[i] = (name.clone(), value);
                proof {
                    lemma_find_idx(old(self)@[at as int].values, name@);
                    assert(s_find_idx(old(self)@[at as int].values, name@) == i as int);
                    assert(self@[at as int].values =~= s_def_in(
                        old(self)@[at as int].values,
                        name@,
                        value@,
                    ));
                    assert(self@ =~~= s_define(old(self)@, at, name@, value@));
                    lemma_wf_define(old(self)@, at, name@, value@);
                }
            },
            None => {
                self.envs[at].values.push((name.clone(), value));
                proof {
                    lemma_find_idx(old(self)@[at as int].values, name@);
                    assert(s_find_idx(old(self)@[at as int].values, name@) == -1);
                    assert(self@[at as int].values =~= old(self)@[at as int].values.push(
                        (name@, value@),
                    ));
                    assert(self@ =~~= s_define(old(self)@, at, name@, value@));
                    lemma_wf_define(old(self)@, at, name@, value@);
                }
            },
        }
    }

    /// Name-based search: this scope, then the parent chain; fails with an
    /// undefined-variable error at the root.
    pub fn get(&self, at: usize, name: &String) -> (r: ResultExec<Value>)
        requires
            self.wf(),
            at < self@.len(),
        ensures
            match s_get(self@, at, name@) {
                Some(v) => r matches Ok(rv) && rv@ == v,
                None => r matches Err(c) && c@ == CtlM::Error(
                    ErrKindM::UndefinedVar(undef_msg(name@)),
                ),
            },
    {
        let mut cur = at;
        loop
            invariant
                self.wf(),
                cur < self@.len(),
                s_get(self@, at, name@) == s_get(self@, cur, name@),
            decreases cur,
        {
            let env = &self.envs[cur];
            match find_index(&env.values, name) {
                Some(i) => {
                    proof {
                        lemma_find_idx(self@[cur as int].values, name@);
                        assert(s_find_idx(self@[cur as int].values, name@) == i as int);
                    }
                    return Ok(env.values[i].1.clone());
                },
                None => {
                    proof {
                        lemma_find_idx(self@[cur as int].values, name@);
                        assert(s_find_idx(self@[cur as int].values, name@) == -1);
                    }
                    match env.enclosing {
                        Some(p) => {
                            proof {
                                assert(env_wf_at(self@, cur as int));
                                assert(s_get(self@, cur, name@) == s_get(self@, p, name@));
                            }
                            cur = p;
                        },
                        None => {
                            return Err(Error::undefined_var(undef_message(name)));
                        },
                    }
                },
            }
        }
    }

    /// Chain search that requires the name to exist somewhere in the chain;
    /// assignment never implicitly declares.
    pub fn assign(&mut self, at: usize, name: &String, value: Value) -> (r: ResultExec<()>)
        requires
            old(self).wf(),
            at < old(self)@.len(),
        ensures
            match s_assign(old(self)@, at, name@, value@) {
                Some(envs2) => r is Ok && final(self)@ == envs2,
                None => r matches Err(c) && c@ == CtlM::Error(
                    ErrKindM::UndefinedVar(undef_msg(name@)),
                ) && final(self)@ == old(self)@,
            },
            final(self).wf(),
            final(self)@.len() == old(self)@.len(),
    {
        let mut cur = at;
        loop
            invariant
                self.wf(),
                self@ == old(self)@,
                cur < self@.len(),
                s_assign(self@, at, name@, value@) == s_assign(self@, cur, name@, value@),
            decreases cur,
        {
            let found = find_index(&self.envs[cur].values, name);
            match found {
                Some(i) => {
                    proof {
                        lemma_find_idx(self@[cur as int].values, name@);
                        assert(s_find_idx(self@[cur as int].values, name@) == i as int);
                    }
                    self.envs[cur].values[i] = (name.clone(), value);
                    proof {
                        lemma_find_idx(old(self)@[cur as int].values, name@);
                        assert(s_find_idx(old(self)@[cur as int].values, name@) == i as int);
                        assert(self@[cur as int].values =~= old(self)@[cur as int].values.update(
                            i as int,
                            (name@, value@),
                        ));
                        let envs2 = s_assign(old(self)@, at, name@, value@)->0;
                        assert(self@ =~~= envs2);
                        assert(envs2 =~~= s_define(old(self)@, cur, name@, value@));
                        lemma_wf_define(old(self)@, cur, name@, value@);
                    }
                    return Ok(());
                },
                None => {
                    proof {
                        lemma_find_idx(self@[cur as int].values, name@);
                        assert(s_find_idx(self@[cur as int].values, name@) == -1);
                    }
                    match self.envs[cur].enclosing {
                        Some(p) => {
                            proof {
                                assert(env_wf_at(self@, cur as int));
                                assert(s_assign(self@, cur, name@, value@) == s_assign(
                                    self@,
                                    p,
                                    name@,
                                    value@,
                                ));
                            }
                            cur = p;
                        },
                        None => {
                            return Err(Error::undefined_var(undef_message(name)));
                        },
                    }
                },
            }
        }
    }

    /// The scope exactly `distance` parent links up; `None` when the chain is
    /// shorter, which a correct resolver never asks for.
    pub fn ancestor(&self, at: usize, distance: usize) -> (r: Option<usize>)
        requires
            self.wf(),
            at < self@.len(),
        ensures
            r == s_ancestor(self@, at, distance),
            r matches Some(e) ==> e < self@.len(),
    {
        let mut cur = at;
        let mut left = distance;
        loop
            invariant
                self.wf(),
                cur < self@.len(),
                s_ancestor(self@, at, distance) == s_ancestor(self@, cur, left),
            decreases left,
        {
            if left == 0 {
                return Some(cur);
            }
            match self.envs[cur].enclosing {
                Some(p) => {
                    proof {
                        assert(env_wf_at(self@, cur as int));
                        assert(s_ancestor(self@, cur, left) == s_ancestor(
                            self@,
                            p,
                            (left - 1) as usize,
                        ));
                    }
                    cur = p;
                    left = left - 1;
                },
                None => {
                    return None;
                },
            }
        }
    }

    /// Walks exactly `distance` links, then reads `name` in that scope alone.
    /// A chain that is too short or a scope that lacks the name surfaces as an
    /// undefined-variable error.
    pub fn get_at(&self, at: usize, distance: usize, name: &String) -> (r: ResultExec<Value>)
        requires
            self.wf(),
            at < self@.len(),
        ensures
            match s_get_at(self@, at, distance, name@) {
                Some(v) => r matches Ok(rv) && rv@ == v,
                None => r matches Err(c) && c@ == CtlM::Error(
                    ErrKindM::UndefinedVar(undef_msg(name@)),
                ),
            },
    {
        match self.ancestor(at, distance) {
            Some(e) => {
                let env = &self.envs[e];
                match find_index(&env.values, name) {
                    Some(i) => {
                        proof {
                            lemma_find_idx(self@[e as int].values, name@);
                            assert(s_find_idx(self@[e as int].values, name@) == i as int);
                        }
                        Ok(env.values[i].1.clone())
                    },
                    None => {
                        proof {
                            lemma_find_idx(self@[e as int].values, name@);
                            assert(s_find_idx(self@[e as int].values, name@) == -1);
                        }
                        Err(Error::undefined_var(undef_message(name)))
                    },
                }
            },
            None => Err(Error::undefined_var(undef_message(name))),
        }
    }

    /// Walks exactly `distance` links, then binds `name` in that scope alone
    /// (defining it there when absent).  A chain that is too short surfaces as
    /// an undefined-variable error.
    pub fn assign_at(&mut self, at: usize, distance: usize, name: &String, value: Value) -> (r:
        ResultExec<()>)
        requires
            old(self).wf(),
            at < old(self)@.len(),
        ensures
            match s_assign_at(old(self)@, at, distance, name@, value@) {
                Some(envs2) => r is Ok && final(self)@ == envs2,
                None => r matches Err(c) && c@ == CtlM::Error(
                    ErrKindM::UndefinedVar(undef_msg(name@)),
                ) && final(self)@ == old(self)@,
            },
            final(self).wf(),
            final(self)@.len() == old(self)@.len(),
    {
        match self.ancestor(at, distance) {
            Some(e) => {
                self.define(e, name, value);
                Ok(())
            },
            None => Err(Error::undefined_var(undef_message(name))),
        }
    }
}

/// The value `get_at` reads: `name` in the scope exactly `distance` links up.
pub open spec fn s_get_at(
    envs: Seq<EnvM>,
    at: usize,
    distance: usize,
    name: Seq<char>,
) -> Option<ValueM> {
    match s_ancestor(envs, at, distance) {
        Some(e) => s_find(envs[e as int].values, name),
        None => None,
    }
}

/// The chain after `assign_at`: `name` bound in the scope exactly `distance`
/// links up.
pub open spec fn s_assign_at(
    envs: Seq<EnvM>,
    at: usize,
    distance: usize,
    name: Seq<char>,
    v: ValueM,
) -> Option<Seq<EnvM>> {
    match s_ancestor(envs, at, distance) {
        Some(e) => Some(s_define(envs, e, name, v)),
        None => None,
    }
}

/// The text of an undefined-variable report.
pub open spec fn undef_msg(name: Seq<char>) -> Seq<char> {
    "Undefined variable '"@ + name + "'."@
}

fn undef_message(name: &String) -> (r: String)
    ensures
        r@ == undef_msg(name@),
{
    let mut s = String::from_str("Undefined variable '");
    s.append(name.as_str());
    s.append("'.");
    s
}

/// The index of the latest binding for `name` in one scope, scanning from the
/// end: the executable counterpart of [`s_find_idx`].
pub(crate) fn find_index(values: &Vec<(String, Value)>, name: &String) -> (r: Option<usize>)
    ensures
        ({
            let m = values@.map_values(|p: (String, Value)| (p.0@, p.1@));
            match r {
                Some(i) => i < values@.len() && s_find_idx(m, name@) == i as int,
                None => s_find_idx(m, name@) == -1,
            }
        }),
{
    let ghost m = values@.map_values(|p: (String, Value)| (p.0@, p.1@));
    let mut i = values.len();
    loop
        invariant
            i <= values@.len(),
            m == values@.map_values(|p: (String, Value)| (p.0@, p.1@)),
            m.len() == values@.len(),
            forall|j: int| i <= j < m.len() ==> m[j].0 != name@,
        decreases i,
    {
        if i == 0 {
            proof {
                lemma_find_idx_none(m, name@);
            }
            return None;
        }
        i = i - 1;
        proof {
            assert(m[i as int] == (values@[i as int].0@, values@[i as int].1@));
        }
        if values[i].0.eq(name) {
            proof {
                lemma_find_idx_is(m, name@, i as int);
            }
            return Some(i);
        }
    }
}

/// When position `i` holds the latest binding for `name`, [`s_find_idx`]
/// yields `i`.
proof fn lemma_find_idx_is(values: Seq<(Seq<char>, ValueM)>, name: Seq<char>, i: int)
    requires
        0 <= i < values.len(),
        values[i].0 == name,
        forall|j: int| i < j < values.len() ==> values[j].0 != name,
    ensures
        s_find_idx(values, name) == i,
    decreases values.len(),
{
    if i + 1 < values.len() {
        assert(values.drop_last()[i] == values[i]);
        lemma_find_idx_is(values.drop_last(), name, i);
    }
}

/// When no position binds `name`, [`s_find_idx`] yields `-1`.
proof fn lemma_find_idx_none(values: Seq<(Seq<char>, ValueM)>, name: Seq<char>)
    requires
        forall|j: int| 0 <= j < values.len() ==> values[j].0 != name,
    ensures
        s_find_idx(values, name) == -1,
    decreases values.len(),
{
    if values.len() > 0 {
        lemma_find_idx_none(values.drop_last(), name);
    }
}

} // verus!

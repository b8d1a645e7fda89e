use std::collections::HashMap;
use vstd::prelude::*;

use crate::binary64::shows;
use crate::expr::Expr;
use crate::node::Node;
use crate::ops::Variable;
use crate::visitors::pretty_printer::{print, PrettyPrinter, PrettyPrinterContext};

verus! {

broadcast use vstd::std_specs::hash::group_hash_axioms;

/// Named variables and the values assigned to them.
///
/// The `i`-th name registered belongs to the variable numbered `i`; names are
/// distinct.
pub struct Context {
    v2n: PrettyPrinterContext,
    n2v: Vec<String>,
    values: HashMap<usize, Node>,
}

/// `m` maps exactly the numbers of the variables in `names` to their names.
pub open spec fn names_agree(m: Map<usize, String>, names: Seq<Seq<char>>) -> bool {
    &&& forall|k: usize| #[trigger] m.contains_key(k) <==> (k as int) < names.len()
    &&& forall|k: usize| #[trigger] m.contains_key(k) ==> m[k]@ == names[k as int]
}

/// The names after asking for a variable named `n`, and that variable's number:
/// the number under which `n` is registered, else `n` registered under the next
/// number.
pub open spec fn register(names: Seq<Seq<char>>, n: Seq<char>) -> (Seq<Seq<char>>, int) {
    if names.contains(n) {
        (names, names.index_of(n))
    } else {
        (names.push(n), names.len() as int)
    }
}

/// What a context holds: the names of its variables, by number, and the
/// expressions assigned to some of them.
pub struct ContextView {
    pub names: Seq<Seq<char>>,
    pub values: Map<usize, Expr>,
}

impl Context {
    /// Names are distinct, the printer's map holds exactly the registered names,
    /// and only registered variables have values. Every context keeps it.
    #[verifier::type_invariant]
    pub closed spec fn wf(&self) -> bool {
        &&& forall|i: int, j: int|
            0 <= i < j < self.n2v@.len() ==> #[trigger] self.n2v@[i]@ != #[trigger] self.n2v@[j]@
        &&& forall|k: usize| #[trigger]
            self.v2n@.contains_key(k) <==> (k as int) < self.n2v@.len()
        &&& forall|k: usize| #[trigger]
            self.v2n@.contains_key(k) ==> self.v2n@[k]@ == self.n2v@[k as int]@
        &&& forall|k: usize| #[trigger] self.values@.contains_key(k) ==> (k as int) < self.n2v@.len()
    }

    pub closed spec fn view(&self) -> ContextView {
        ContextView {
            names: self.n2v@.map_values(|s: String| s@),
            values: self.values@.map_values(|n: Node| n@),
        }
    }

    /// The names as the pretty printer reads them.
    pub closed spec fn printer_names(&self) -> Map<usize, String> {
        self.v2n@
    }

    /// Only variables that have a name carry a value.
    pub proof fn lemma_values_named(&self)
        requires
            self.wf(),
        ensures
            forall|k: usize| #[trigger] self.view().values.contains_key(k) ==> (k as int) < self.view().names.len(),
    {
    }

    /// An empty context.
    pub fn new() -> (c: Context)
        ensures
            c.view().names == Seq::<Seq<char>>::empty(),
            c.view().values == Map::<usize, Expr>::empty(),
    {
        let c = Context { v2n: PrettyPrinterContext::new(), n2v: Vec::new(), values: HashMap::new() };
        assert(c.view().names =~= Seq::<Seq<char>>::empty());
        assert(c.view().values =~= Map::<usize, Expr>::empty());
        c
    }

    /// The variable named `n`: the one registered under that name, else a new
    /// variable, numbered after all earlier ones, registered under it.
    pub fn new_var(&mut self, n: String) -> (v: Variable)
        ensures
            final(self).view().names == register(old(self).view().names, n@).0,
            v.0 as int == register(old(self).view().names, n@).1,
            final(self).view().values == old(self).view().values,
    {
        proof {
            use_type_invariant(&*self);
        }
        let len = self.n2v.len();
        let mut i: usize = 0;
        while i < len
            invariant
                self.wf(),
                *self == *old(self),
                len == self.n2v@.len(),
                i <= len,
                forall|j: int| 0 <= j < i ==> self.n2v@[j]@ != n@,
            decreases len - i,
        {
            if self.n2v[i] == n {
                proof {
                    let names = self.view().names;
                    assert(names[i as int] == n@);
                    assert(names.contains(n@));
                    let j = names.index_of(n@);
                    assert(self.n2v@[j]@ == self.n2v@[i as int]@);
                    assert(j == i);
                }
                return Variable(i);
            }
            i = i + 1;
        }
        proof {
            assert(!self.view().names.contains(n@)) by {
                if self.view().names.contains(n@) {
                    let j = choose|j: int| 0 <= j < self.view().names.len() && self.view().names[j] == n@;
                    assert(self.n2v@[j]@ == n@);
                }
            }
        }
        let var = Variable(len);
        let name = n.clone();
        let ghost old_names = self.view().names;
        let ghost old_values = self.view().values;
        let mut taken = Context::new();
        std::mem::swap(&mut taken, self);
        let Context { mut v2n, mut n2v, values } = taken;
        v2n.name_var(var, name);
        n2v.push(n);
        let updated = Context { v2n, n2v, values };
        proof {
            assert(updated.view().names =~= old_names.push(updated.n2v@[len as int]@));
            assert(updated.view().values =~= old_values);
        }
        *self = updated;
        var
    }

    /// Assigns `n` to `v`, which must be a variable of this context.
    pub fn assign(&mut self, v: Variable, n: Node)
        requires
            (v.0 as int) < old(self).view().names.len(),
        ensures
            final(self).view().names == old(self).view().names,
            final(self).view().values == old(self).view().values.insert(v.0, n@),
    {
        proof {
            use_type_invariant(&*self);
        }
        let ghost old_view = self.view();
        let ghost nv = n@;
        let mut taken = Context::new();
        std::mem::swap(&mut taken, self);
        let Context { v2n, n2v, mut values } = taken;
        values.insert(v.0, n);
        let updated = Context { v2n, n2v, values };
        proof {
            assert(updated.view().names =~= old_view.names);
            assert(updated.view().values =~= old_view.values.insert(v.0, nv));
        }
        *self = updated;
    }

    /// How many variables have names.
    pub fn num_variables(&self) -> (r: usize)
        ensures
            r == self.view().names.len(),
    {
        self.n2v.len()
    }

    /// The name of `v`, if it is a variable of this context.
    pub fn get_name(&self, v: Variable) -> (r: Option<&String>)
        ensures
            (v.0 as int) < self.view().names.len() ==> r is Some && r.unwrap()@
                == self.view().names[v.0 as int],
            (v.0 as int) >= self.view().names.len() ==> r is None,
    {
        proof {
            use_type_invariant(self);
        }
        if v.0 < self.n2v.len() {
            Some(&self.n2v[v.0])
        } else {
            None
        }
    }

    /// The names, as a pretty printer context.
    pub fn as_printer(&self) -> (r: &PrettyPrinterContext)
        ensures
            r@ == self.printer_names(),
            names_agree(r@, self.view().names),
    {
        proof {
            use_type_invariant(self);
        }
        &self.v2n
    }

    /// The expression assigned to `v`, if any.
    pub fn value(&self, v: &Variable) -> (r: Option<&Node>)
        ensures
            match r {
                Some(n) => self.view().values.contains_key(v.0) && self.view().values[v.0] == n@,
                None => !self.view().values.contains_key(v.0),
            },
    {
        self.values.get(&v.0)
    }

    /// All assignments, by variable number.
    pub fn values(&self) -> (r: &HashMap<usize, Node>)
        ensures
            r@.map_values(|n: Node| n@) == self.view().values,
    {
        &self.values
    }

    /// The text of `n` with the variable names of this context; `show` writes floats.
    pub fn print<H: Fn(u64) -> String>(&self, n: &Node, show: &H) -> (r: String)
        requires
            forall|b: u64| call_requires(*show, (b,)),
        ensures
            names_agree(self.printer_names(), self.view().names),
            forall|text: spec_fn(u64) -> Seq<char>| #[trigger]
                shows(*show, text) ==> r@ == print(n@, self.printer_names(), text),
    {
        proof {
            use_type_invariant(self);
        }
        PrettyPrinter::print_with_context(n, &self.v2n, show)
    }
}

} // verus!

//! The loaded modules, which of them are switched off, and whether Discord's command list is stale.
use vstd::prelude::*;
use crate::custom_id::chars_equal;
use crate::text::{chars_of, decimal, truncate_str, truncated, truncation_defined, u64_to_string};

verus! {

/// A loaded module: its name, its description and what the bot keeps of it.
pub struct ModuleEntry<T> {
    pub name: String,
    pub description: String,
    pub commands: Vec<String>,
    pub module: T,
}

/// The loaded modules, in the order they were loaded, and the names of the switched-off modules.
pub struct ModuleRegistry<T> {
    pub available: Vec<ModuleEntry<T>>,
    pub disabled: Vec<String>,
}

/// The names of the loaded modules.
pub open spec fn entry_names<T>(entries: Seq<ModuleEntry<T>>) -> Seq<Seq<char>> {
    entries.map_values(|e: ModuleEntry<T>| e.name@)
}

/// The names of the switched-off modules.
pub open spec fn name_list(names: Seq<String>) -> Seq<Seq<char>> {
    names.map_values(|n: String| n@)
}

/// Whether a registry is consistent: each module is loaded under one name only.
pub open spec fn registry_wf<T>(r: ModuleRegistry<T>) -> bool {
    entry_names(r.available@).no_duplicates()
}

/// Whether a module of that name is loaded.
pub open spec fn is_available<T>(r: ModuleRegistry<T>, name: Seq<char>) -> bool {
    entry_names(r.available@).contains(name)
}

/// Whether a name is switched off.
pub open spec fn is_disabled<T>(r: ModuleRegistry<T>, name: Seq<char>) -> bool {
    name_list(r.disabled@).contains(name)
}

/// Whether a module runs: it is loaded and not switched off.
pub open spec fn is_enabled<T>(r: ModuleRegistry<T>, name: Seq<char>) -> bool {
    is_available(r, name) && !is_disabled(r, name)
}

fn index_of_name(names: &Vec<String>, name: &Vec<char>) -> (r: Option<usize>)
    ensures
        r matches Some(i) ==> i < names@.len() && names@[i as int]@ == name@,
        r is Some <==> name_list(names@).contains(name@),
{
    let mut i: usize = 0;
    while i < names.len()
        invariant
            i <= names@.len(),
            forall|j: int| 0 <= j < i ==> names@[j]@ != name@,
        decreases names@.len() - i,
    {
        let c = chars_of(names[i].as_str());
        if chars_equal(&c, name) {
            assert(name_list(names@)[i as int] == name@);
            return Some(i);
        }
        i = i + 1;
    }
    proof {
        if name_list(names@).contains(name@) {
            let j = choose|j: int| 0 <= j < name_list(names@).len() && name_list(names@)[j] == name@;
            assert(names@[j]@ == name@);
        }
    }
    None
}

/// Pushing onto a sequence adds exactly the pushed element to what it contains.
proof fn lemma_contains_push<A>(s: Seq<A>, x: A, m: A)
    ensures
        s.push(x).contains(m) == (s.contains(m) || m == x),
{
    if s.contains(m) {
        let j = choose|j: int| 0 <= j < s.len() && s[j] == m;
        assert(s.push(x)[j] == m);
    }
    if m == x {
        assert(s.push(x)[s.len() as int] == m);
    }
    if s.push(x).contains(m) {
        let j = choose|j: int| 0 <= j < s.push(x).len() && s.push(x)[j] == m;
        if j < s.len() {
            assert(s[j] == m);
        }
    }
}

impl<T> ModuleRegistry<T> {
    /// No module is loaded and none is switched off.
    pub fn new() -> (r: ModuleRegistry<T>)
        ensures
            r.available@.len() == 0,
            r.disabled@.len() == 0,
            registry_wf(r),
    {
        let r = ModuleRegistry { available: Vec::new(), disabled: Vec::new() };
        assert(entry_names(r.available@) =~= Seq::<Seq<char>>::empty());
        r
    }

    fn entry_index(&self, name: &Vec<char>) -> (r: Option<usize>)
        ensures
            r matches Some(i) ==> i < self.available@.len() && self.available@[i as int].name@ == name@,
            r is Some <==> entry_names(self.available@).contains(name@),
    {
        let mut i: usize = 0;
        while i < self.available.len()
            invariant
                i <= self.available@.len(),
                forall|j: int| 0 <= j < i ==> self.available@[j].name@ != name@,
            decreases self.available@.len() - i,
        {
            let c = chars_of(self.available[i].name.as_str());
            if chars_equal(&c, name) {
                assert(entry_names(self.available@)[i as int] == name@);
                return Some(i);
            }
            i = i + 1;
        }
        proof {
            if entry_names(self.available@).contains(name@) {
                let j = choose|j: int| 0 <= j < entry_names(self.available@).len() && entry_names(self.available@)[j] == name@;
                assert(self.available@[j].name@ == name@);
            }
        }
        None
    }

    /// Whether a module of that name is loaded.
    pub fn contains(&self, name: &str) -> (r: bool)
        ensures
            r == is_available(*self, name@),
    {
        let n = chars_of(name);
        self.entry_index(&n).is_some()
    }

    /// Whether a module of that name runs.
    pub fn enabled(&self, name: &str) -> (r: bool)
        ensures
            r == is_enabled(*self, name@),
    {
        let n = chars_of(name);
        self.entry_index(&n).is_some() && index_of_name(&self.disabled, &n).is_none()
    }

    /// Loads a module; a module loaded under the same name before is replaced. It runs unless its name
    /// is switched off.
    pub fn register(&mut self, name: String, description: String, module: T)
        requires
            registry_wf(*old(self)),
        ensures
            registry_wf(*final(self)),
            is_available(*final(self), name@),
            forall|n: Seq<char>| #[trigger] is_available(*final(self), n) == (is_available(*old(self), n) || n == name@),
            final(self).disabled@ == old(self).disabled@,
            is_enabled(*final(self), name@) == !is_disabled(*old(self), name@),
    {
        let n = chars_of(name.as_str());
        let ghost name_view = name@;
        let ghost before = self.available@;
        match self.entry_index(&n) {
            Some(i) => {
                self.available.set(i, ModuleEntry { name, description, commands: Vec::new(), module });
                assert(entry_names(self.available@) =~= entry_names(before));
            },
            None => {
                self.available.push(ModuleEntry { name, description, commands: Vec::new(), module });
                assert(entry_names(self.available@) =~= entry_names(before).push(name_view));
            },
        }
        let ghost after = self.available@;
        assert forall|m: Seq<char>| #[trigger] entry_names(after).contains(m) == (entry_names(before).contains(m) || m == name_view) by {
            lemma_contains_push(entry_names(before), name_view, m);
        }
    }

    /// Switches a module on or off by name. A name can be switched off before any module carries it.
    pub fn set_module_enabled(&mut self, name: &str, enabled: bool)
        ensures
            final(self).available@ == old(self).available@,
            enabled ==> !is_disabled(*final(self), name@),
            !enabled ==> is_disabled(*final(self), name@),
            enabled ==> (is_enabled(*final(self), name@) <==> is_available(*old(self), name@)),
            !enabled ==> !is_enabled(*final(self), name@),
            forall|m: Seq<char>| m != name@ ==> #[trigger] is_disabled(*final(self), m) == is_disabled(*old(self), m),
    {
        let n = chars_of(name);
        let ghost before = self.disabled@;
        let ghost avail = self.available@;
        if enabled {
            let mut i: usize = 0;
            while i < self.disabled.len()
                invariant
                    i <= self.disabled@.len(),
                    n@ == name@,
                    self.available@ == avail,
                    forall|j: int| 0 <= j < i ==> self.disabled@[j]@ != name@,
                    forall|m: Seq<char>| m != name@ ==> (#[trigger] name_list(self.disabled@).contains(m) == name_list(before).contains(m)),
                decreases self.disabled@.len() - i,
            {
                let c = chars_of(self.disabled[i].as_str());
                if chars_equal(&c, &n) {
                    let ghost prev = self.disabled@;
                    self.disabled.remove(i);
                    assert forall|m: Seq<char>| m != name@ implies (#[trigger] name_list(self.disabled@).contains(m) == name_list(prev).contains(m)) by {
                        if name_list(prev).contains(m) {
                            let j = choose|j: int| 0 <= j < name_list(prev).len() && name_list(prev)[j] == m;
                            if j < i {
                                assert(name_list(self.disabled@)[j] == m);
                            } else {
                                assert(j != i);
                                assert(name_list(self.disabled@)[j - 1] == m);
                            }
                        }
                        if name_list(self.disabled@).contains(m) {
                            let j = choose|j: int| 0 <= j < name_list(self.disabled@).len() && name_list(self.disabled@)[j] == m;
                            if j < i {
                                assert(name_list(prev)[j] == m);
                            } else {
                                assert(name_list(prev)[j + 1] == m);
                            }
                        }
                    }
                } else {
                    i = i + 1;
                }
            }
            proof {
                if name_list(self.disabled@).contains(name@) {
                    let j = choose|j: int| 0 <= j < name_list(self.disabled@).len() && name_list(self.disabled@)[j] == name@;
                    assert(self.disabled@[j]@ == name@);
                }
            }
        } else {
            match index_of_name(&self.disabled, &n) {
                Some(i) => {
                    assert(name_list(self.disabled@)[i as int] == name@);
                },
                None => {
                    self.disabled.push(name.to_owned());
                    assert(name_list(self.disabled@) =~= name_list(before).push(name@));
                    let ghost now = self.disabled@;
                    assert forall|m: Seq<char>| #[trigger] name_list(now).contains(m) == (name_list(before).contains(m) || m == name@) by {
                        lemma_contains_push(name_list(before), name@, m);
                    }
                },
            }
        }
    }

    /// The positions of the running modules, in load order.
    pub fn enabled_indices(&self) -> (r: Vec<usize>)
        ensures
            r@ == matching_indices(*self, false, self.available@.len()),
    {
        self.indices_where(false)
    }

    /// The positions of the loaded modules that are switched off, in load order.
    pub fn disabled_indices(&self) -> (r: Vec<usize>)
        ensures
            r@ == matching_indices(*self, true, self.available@.len()),
    {
        self.indices_where(true)
    }

    fn indices_where(&self, switched_off: bool) -> (r: Vec<usize>)
        ensures
            r@ == matching_indices(*self, switched_off, self.available@.len()),
    {
        let mut r: Vec<usize> = Vec::new();
        let mut i: usize = 0;
        while i < self.available.len()
            invariant
                i <= self.available@.len(),
                r@ == matching_indices(*self, switched_off, i as nat),
            decreases self.available@.len() - i,
        {
            let n = chars_of(self.available[i].name.as_str());
            let off = index_of_name(&self.disabled, &n).is_some();
            proof {
                if off {
                    let k = choose|k: int| 0 <= k < self.disabled@.len() && self.disabled@[k]@ == n@;
                    assert(name_list(self.disabled@)[k] == n@);
                }
            }
            if off == switched_off {
                r.push(i);
            }
            i = i + 1;
        }
        r
    }
}

/// The positions, below `n`, of the loaded modules that are switched off (or, for `false`, that
/// run), in load order.
pub open spec fn matching_indices<T>(r: ModuleRegistry<T>, switched_off: bool, n: nat) -> Seq<usize>
    decreases n,
{
    if n == 0 {
        Seq::empty()
    } else {
        let prev = matching_indices(r, switched_off, (n - 1) as nat);
        if is_disabled(r, r.available@[n - 1].name@) == switched_off {
            prev.push((n - 1) as usize)
        } else {
            prev
        }
    }
}

/// Every position listed lies below the bound.
pub proof fn lemma_matching_indices_bounded<T>(r: ModuleRegistry<T>, switched_off: bool, n: nat)
    ensures
        forall|k: int| 0 <= k < matching_indices(r, switched_off, n).len() ==> (#[trigger] matching_indices(r, switched_off, n)[k]) < n,
    decreases n,
{
    if n > 0 {
        lemma_matching_indices_bounded(r, switched_off, (n - 1) as nat);
        let prev = matching_indices(r, switched_off, (n - 1) as nat);
        assert forall|k: int| 0 <= k < matching_indices(r, switched_off, n).len() implies (#[trigger] matching_indices(r, switched_off, n)[k]) < n by {
            if k < prev.len() {
                assert(matching_indices(r, switched_off, n)[k] == prev[k]);
            }
        }
    }
}

/// The running modules, below position `n`, that declared a command of that name, in load order.
pub open spec fn command_handlers<T>(r: ModuleRegistry<T>, name: Seq<char>, n: nat) -> Seq<usize>
    decreases n,
{
    if n == 0 {
        Seq::empty()
    } else {
        let prev = command_handlers(r, name, (n - 1) as nat);
        let e = r.available@[n - 1];
        if !is_disabled(r, e.name@) && name_list(e.commands@).contains(name) {
            prev.push((n - 1) as usize)
        } else {
            prev
        }
    }
}

/// The names of the running modules, each followed by a comma and a space, in load order.
pub open spec fn running_names<T>(r: ModuleRegistry<T>, n: nat) -> Seq<char>
    decreases n,
{
    if n == 0 {
        Seq::empty()
    } else {
        let prev = running_names(r, (n - 1) as nat);
        let e = r.available@[n - 1];
        if !is_disabled(r, e.name@) {
            prev + e.name@ + ", "@
        } else {
            prev
        }
    }
}

impl<T> ModuleRegistry<T> {
    /// Records the names of the commands a module declared.
    pub fn set_commands(&mut self, i: usize, commands: Vec<String>)
        requires
            i < old(self).available@.len(),
        ensures
            final(self).available@.len() == old(self).available@.len(),
            final(self).available@[i as int].commands@ == commands@,
            final(self).available@[i as int].name@ == old(self).available@[i as int].name@,
            forall|j: int| 0 <= j < old(self).available@.len() && j != i ==> #[trigger] final(self).available@[j] == old(self).available@[j],
            entry_names(final(self).available@) == entry_names(old(self).available@),
            final(self).disabled@ == old(self).disabled@,
    {
        let mut entry = self.available.remove(i);
        entry.commands = commands;
        self.available.insert(i, entry);
        assert(entry_names(self.available@) =~= entry_names(old(self).available@));
    }

    /// The running modules that declared a command of that name, in load order.
    pub fn modules_for_command(&self, name: &str) -> (r: Vec<usize>)
        ensures
            r@ == command_handlers(*self, name@, self.available@.len()),
    {
        let wanted = chars_of(name);
        let mut r: Vec<usize> = Vec::new();
        let mut i: usize = 0;
        while i < self.available.len()
            invariant
                i <= self.available@.len(),
                wanted@ == name@,
                r@ == command_handlers(*self, name@, i as nat),
            decreases self.available@.len() - i,
        {
            let n = chars_of(self.available[i].name.as_str());
            let off = index_of_name(&self.disabled, &n).is_some();
            let has = index_of_name(&self.available[i].commands, &wanted).is_some();
            if !off && has {
                r.push(i);
            }
            i = i + 1;
        }
        r
    }

    /// The names of the running modules, each followed by a comma and a space, in load order.
    pub fn running_module_names(&self) -> (r: String)
        ensures
            r@ == running_names(*self, self.available@.len()),
    {
        let mut r = String::new();
        let mut i: usize = 0;
        while i < self.available.len()
            invariant
                i <= self.available@.len(),
                r@ == running_names(*self, i as nat),
            decreases self.available@.len() - i,
        {
            let n = chars_of(self.available[i].name.as_str());
            if index_of_name(&self.disabled, &n).is_none() {
                r.append(self.available[i].name.as_str());
                r.append(", ");
                proof {
                    reveal_strlit(", ");
                }
            }
            i = i + 1;
        }
        r
    }

    /// Switches off each of the given names (the modules the configuration keeps switched off).
    pub fn apply_disabled(&mut self, names: &Vec<String>)
        ensures
            final(self).available@ == old(self).available@,
            forall|m: Seq<char>| #[trigger] is_disabled(*final(self), m) == (is_disabled(*old(self), m) || name_list(names@).contains(m)),
    {
        let mut i: usize = 0;
        while i < names.len()
            invariant
                i <= names@.len(),
                self.available@ == old(self).available@,
                forall|m: Seq<char>| #[trigger] is_disabled(*self, m) == (is_disabled(*old(self), m) || name_list(names@.take(i as int)).contains(m)),
            decreases names@.len() - i,
        {
            let ghost before = *self;
            self.set_module_enabled(names[i].as_str(), false);
            proof {
                assert(names@.take(i + 1) =~= names@.take(i as int).push(names@[i as int]));
                assert(name_list(names@.take(i + 1)) =~= name_list(names@.take(i as int)).push(names@[i as int]@));
                assert forall|m: Seq<char>| #[trigger] is_disabled(*self, m) == (is_disabled(*old(self), m) || name_list(names@.take(i + 1)).contains(m)) by {
                    lemma_contains_push(name_list(names@.take(i as int)), names@[i as int]@, m);
                    if m != names@[i as int]@ {
                        assert(is_disabled(*self, m) == is_disabled(before, m));
                    }
                }
            }
            i = i + 1;
        }
        assert(names@.take(i as int) =~= names@);
    }
}

/// Switching a module off and then on again leaves it running exactly when it is loaded.
pub proof fn lemma_switch_off_then_on<T>(r0: ModuleRegistry<T>, r1: ModuleRegistry<T>, r2: ModuleRegistry<T>, name: Seq<char>)
    requires
        r1.available@ == r0.available@,
        is_disabled(r1, name),
        r2.available@ == r1.available@,
        !is_disabled(r2, name),
    ensures
        is_enabled(r2, name) == is_available(r0, name),
{
}

/// Whether Discord's command list must be replaced: the commands registered on the server are not
/// exactly the bot's commands, each once.
pub open spec fn commands_outdated_spec(desired: Seq<Seq<char>>, existing: Seq<Seq<char>>) -> bool {
    !(existing.no_duplicates() && (forall|e: Seq<char>| existing.contains(e) ==> desired.contains(e)) && (forall|
        d: Seq<char>,
    | desired.contains(d) ==> existing.contains(d)))
}

fn seq_has(v: &Vec<Vec<char>>, x: &Vec<char>) -> (r: bool)
    ensures
        r == crate::text::vecs_view(v@).contains(x@),
{
    let mut i: usize = 0;
    while i < v.len()
        invariant
            i <= v@.len(),
            forall|j: int| 0 <= j < i ==> v@[j]@ != x@,
        decreases v@.len() - i,
    {
        if chars_equal(&v[i], x) {
            assert(crate::text::vecs_view(v@)[i as int] == x@);
            return true;
        }
        i = i + 1;
    }
    proof {
        if crate::text::vecs_view(v@).contains(x@) {
            let j = choose|j: int| 0 <= j < crate::text::vecs_view(v@).len() && crate::text::vecs_view(v@)[j] == x@;
            assert(v@[j]@ == x@);
        }
    }
    false
}

/// Whether the command list on the server must be replaced by the bot's.
pub fn commands_outdated(desired: &Vec<String>, existing: &Vec<String>) -> (r: bool)
    ensures
        r == commands_outdated_spec(name_list(desired@), name_list(existing@)),
{
    let mut d: Vec<Vec<char>> = Vec::new();
    let mut i: usize = 0;
    while i < desired.len()
        invariant
            i <= desired@.len(),
            crate::text::vecs_view(d@) == name_list(desired@).take(i as int),
        decreases desired@.len() - i,
    {
        let ghost before = d@;
        let c = chars_of(desired[i].as_str());
        d.push(c);
        assert(crate::text::vecs_view(d@) =~= crate::text::vecs_view(before).push(c@));
        i = i + 1;
        assert(crate::text::vecs_view(d@) =~= name_list(desired@).take(i as int));
    }
    assert(name_list(desired@).take(i as int) =~= name_list(desired@));
    let mut e: Vec<Vec<char>> = Vec::new();
    let mut i: usize = 0;
    while i < existing.len()
        invariant
            i <= existing@.len(),
            crate::text::vecs_view(e@) == name_list(existing@).take(i as int),
        decreases existing@.len() - i,
    {
        let ghost before = e@;
        let c = chars_of(existing[i].as_str());
        e.push(c);
        assert(crate::text::vecs_view(e@) =~= crate::text::vecs_view(before).push(c@));
        i = i + 1;
        assert(crate::text::vecs_view(e@) =~= name_list(existing@).take(i as int));
    }
    assert(name_list(existing@).take(i as int) =~= name_list(existing@));
    let ghost dv = name_list(desired@);
    let ghost ev = name_list(existing@);
    // each server command appears once
    let mut k: usize = 0;
    while k < e.len()
        invariant
            k <= e@.len(),
            crate::text::vecs_view(e@) == ev,
            ev == name_list(existing@),
            dv == name_list(desired@),
            forall|a: int, b: int| 0 <= a < b < ev.len() && a < k ==> ev[a] != ev[b],
        decreases e@.len() - k,
    {
        let mut m: usize = k + 1;
        while m < e.len()
            invariant
                k < e@.len(),
                k + 1 <= m <= e@.len(),
                crate::text::vecs_view(e@) == ev,
                ev == name_list(existing@),
                dv == name_list(desired@),
            ev == name_list(existing@),
            dv == name_list(desired@),
                forall|a: int, b: int| 0 <= a < b < ev.len() && a < k ==> ev[a] != ev[b],
                forall|b: int| k < b < m ==> ev[k as int] != ev[b],
            decreases e@.len() - m,
        {
            if chars_equal(&e[k], &e[m]) {
                assert(crate::text::vecs_view(e@)[k as int] == e@[k as int]@);
                assert(crate::text::vecs_view(e@)[m as int] == e@[m as int]@);
                assert(ev[k as int] == ev[m as int]);
                assert(!ev.no_duplicates());
                return true;
            }
            m = m + 1;
        }
        k = k + 1;
    }
    assert(ev.no_duplicates());
    let mut k: usize = 0;
    while k < e.len()
        invariant
            k <= e@.len(),
            crate::text::vecs_view(e@) == ev,
            ev == name_list(existing@),
            dv == name_list(desired@),
            crate::text::vecs_view(d@) == dv,
            forall|a: int| 0 <= a < k ==> dv.contains(ev[a]),
        decreases e@.len() - k,
    {
        if !seq_has(&d, &e[k]) {
            assert(crate::text::vecs_view(e@)[k as int] == e@[k as int]@);
            assert(!dv.contains(ev[k as int]));
            assert(ev.contains(ev[k as int]));
            return true;
        }
        k = k + 1;
    }
    assert forall|x: Seq<char>| ev.contains(x) implies dv.contains(x) by {
        let a = choose|a: int| 0 <= a < ev.len() && ev[a] == x;
    }
    let mut k: usize = 0;
    while k < d.len()
        invariant
            k <= d@.len(),
            crate::text::vecs_view(e@) == ev,
            ev == name_list(existing@),
            dv == name_list(desired@),
            crate::text::vecs_view(d@) == dv,
            forall|a: int| 0 <= a < k ==> ev.contains(dv[a]),
        decreases d@.len() - k,
    {
        if !seq_has(&e, &d[k]) {
            assert(crate::text::vecs_view(d@)[k as int] == d@[k as int]@);
            assert(!ev.contains(dv[k as int]));
            assert(dv.contains(dv[k as int]));
            return true;
        }
        k = k + 1;
    }
    assert forall|x: Seq<char>| dv.contains(x) implies ev.contains(x) by {
        let a = choose|a: int| 0 <= a < dv.len() && dv[a] == x;
    }
    false
}

/// One line of the module list: `:white_check_mark: `name` : description` for a running module,
/// `:x: ...` for a switched-off one, each followed by a line break.
pub open spec fn module_line_spec(enabled: bool, name: Seq<char>, description: Seq<char>) -> Seq<char> {
    (if enabled { ":white_check_mark: `"@ } else { ":x: `"@ }) + name + "` : "@ + description + "\n"@
}

/// The lines of the module list for the given modules.
pub open spec fn module_lines_spec(enabled: bool, names: Seq<(Seq<char>, Seq<char>)>) -> Seq<char>
    decreases names.len(),
{
    if names.len() == 0 {
        Seq::empty()
    } else {
        module_lines_spec(enabled, names.drop_last()) + module_line_spec(enabled, names.last().0, names.last().1)
    }
}

/// The names and descriptions of the modules at the given positions.
pub open spec fn described<T>(entries: Seq<ModuleEntry<T>>, idx: Seq<usize>) -> Seq<(Seq<char>, Seq<char>)> {
    idx.map_values(|i: usize| (entries[i as int].name@, entries[i as int].description@))
}

fn append_module_lines<T>(out: &mut String, entries: &Vec<ModuleEntry<T>>, idx: &Vec<usize>, enabled: bool)
    requires
        forall|k: int| 0 <= k < idx@.len() ==> (#[trigger] idx@[k]) < entries@.len(),
    ensures
        final(out)@ == old(out)@ + module_lines_spec(enabled, described(entries@, idx@)),
{
    let mut k: usize = 0;
    while k < idx.len()
        invariant
            k <= idx@.len(),
            forall|j: int| 0 <= j < idx@.len() ==> (#[trigger] idx@[j]) < entries@.len(),
            out@ == old(out)@ + module_lines_spec(enabled, described(entries@, idx@.take(k as int))),
        decreases idx@.len() - k,
    {
        let e = &entries[idx[k]];
        if enabled {
            out.append(":white_check_mark: `");
        } else {
            out.append(":x: `");
        }
        out.append(e.name.as_str());
        out.append("` : ");
        out.append(e.description.as_str());
        out.append("\n");
        assert(described(entries@, idx@.take(k + 1)).drop_last() =~= described(entries@, idx@.take(k as int)));
        k = k + 1;
        assert(out@ =~= old(out)@ + module_lines_spec(enabled, described(entries@, idx@.take(k as int))));
    }
    assert(idx@.take(k as int) =~= idx@);
}

/// The module list: the running modules, then the switched-off ones, one line each.
pub open spec fn module_list_spec<T>(r: ModuleRegistry<T>) -> Seq<char> {
    module_lines_spec(true, described(r.available@, matching_indices(r, false, r.available@.len())))
        + module_lines_spec(false, described(r.available@, matching_indices(r, true, r.available@.len())))
}

/// The module list, with the number of running modules and of switched-off ones.
pub fn module_list<T>(registry: &ModuleRegistry<T>) -> (r: (String, usize, usize))
    ensures
        r.0@ == module_list_spec(*registry),
        r.1 == matching_indices(*registry, false, registry.available@.len()).len(),
        r.2 == matching_indices(*registry, true, registry.available@.len()).len(),
{
    let on = registry.enabled_indices();
    let off = registry.disabled_indices();
    proof {
        lemma_matching_indices_bounded(*registry, false, registry.available@.len());
        lemma_matching_indices_bounded(*registry, true, registry.available@.len());
    }
    let mut out = String::new();
    append_module_lines(&mut out, &registry.available, &on, true);
    append_module_lines(&mut out, &registry.available, &off, false);
    assert(out@ =~= module_list_spec(*registry));
    (out, on.len(), off.len())
}

/// The answer to the module list command: the count of running modules over the count of all
/// loaded ones, then the list, cut to 1900 bytes.
pub open spec fn modules_message_spec(on: nat, off: nat, list: Seq<char>) -> Seq<char> {
    "# "@ + decimal(on) + " / "@ + decimal(on + off) + " modules disponibles:\n"@ + truncated(list, 1900)
}

/// Writes the answer to the module list command.
pub fn modules_message(on: usize, off: usize, list: &str) -> (r: String)
    requires
        on + off <= u64::MAX,
        truncation_defined(list@, 1900),
    ensures
        r@ == modules_message_spec(on as nat, off as nat, list@),
{
    let mut out = String::new();
    out.append("# ");
    let a = u64_to_string(on as u64);
    out.append(a.as_str());
    out.append(" / ");
    let b = u64_to_string(on as u64 + off as u64);
    out.append(b.as_str());
    out.append(" modules disponibles:\n");
    let t = truncate_str(list, 1900);
    out.append(t.as_str());
    proof {
        reveal_strlit("# ");
        reveal_strlit(" / ");
        reveal_strlit(" modules disponibles:\n");
    }
    assert(out@ =~= modules_message_spec(on as nat, off as nat, list@));
    out
}

} // verus!

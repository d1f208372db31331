//! Where a script module is looked for. The package path is a colon-separated list of path
//! patterns; in each, every `?` stands for the module name with its dots turned into slashes.
//! Modules are looked for along the patterns in order.
use vstd::prelude::*;
use vstd::string::*;
use crate::util::push_char;
use crate::util::chars_of;
use crate::util::str_eq;

verus! {

/// The registry key of the package module table.
pub const HV_PACKAGE: &'static str = "HV_PACKAGE";

/// The default package path.
pub const HV_DEFAULT_PATH: &'static str = "/?.lua:/?/init.lua:/scripts/?.lua:/scripts/?/init.lua";

/// The pieces of `s` between colons, in order, empty ones included: a string without colons is
/// one piece, and each colon starts a new piece.
pub open spec fn split_colons(s: Seq<char>) -> Seq<Seq<char>>
    decreases s.len(),
{
    if s.len() == 0 {
        seq![Seq::empty()]
    } else {
        let prev = split_colons(s.drop_last());
        if s.last() == ':' {
            prev.push(Seq::empty())
        } else {
            prev.update(prev.len() - 1, prev.last().push(s.last()))
        }
    }
}

/// The file path of a module name: its dots turned into slashes.
pub open spec fn module_file(module: Seq<char>) -> Seq<char> {
    module.map_values(|c: char| if c == '.' { '/' } else { c })
}

/// A path pattern with every `?` replaced by `file`.
pub open spec fn fill_in(pattern: Seq<char>, file: Seq<char>) -> Seq<char>
    decreases pattern.len(),
{
    if pattern.len() == 0 {
        Seq::empty()
    } else if pattern.last() == '?' {
        fill_in(pattern.drop_last(), file) + file
    } else {
        fill_in(pattern.drop_last(), file).push(pattern.last())
    }
}

/// The paths where `module` is looked for along `package_path`, in order.
pub open spec fn candidates(package_path: Seq<char>, module: Seq<char>) -> Seq<Seq<char>> {
    split_colons(package_path).map_values(|pattern: Seq<char>| fill_in(pattern, module_file(module)))
}

/// A piece is never missing: splitting gives at least one piece.
proof fn lemma_split_colons_nonempty(s: Seq<char>)
    ensures
        split_colons(s).len() >= 1,
    decreases s.len(),
{
    if s.len() > 0 {
        lemma_split_colons_nonempty(s.drop_last());
    }
}

/// The file path of a module name: a copy of the name with its dots turned into slashes.
pub fn module_file_path(module: &str) -> (file: String)
    ensures
        file@ == module_file(module@),
{
    let chars = chars_of(module);
    let mut file = String::new();
    let mut i: usize = 0;
    while i < chars.len()
        invariant
            i <= chars@.len(),
            chars@ == module@,
            file@ == module_file(module@).take(i as int),
        decreases chars@.len() - i,
    {
        let c = chars[i];
        let ghost before = file@;
        if c == '.' {
            push_char(&mut file, '/');
        } else {
            push_char(&mut file, c);
        }
        assert(module_file(module@).take(i + 1) =~= before.push(module_file(module@)[i as int]));
        i = i + 1;
    }
    assert(module_file(module@).take(i as int) =~= module_file(module@));
    file
}

/// The paths where a module is looked for: each colon-separated pattern of the package path
/// with every `?` replaced by the module's file path (its dots turned into slashes), in order.
pub fn candidate_paths(package_path: &str, module: &str) -> (paths: Vec<String>)
    ensures
        paths@.len() == candidates(package_path@, module@).len(),
        forall|k: int|
            0 <= k < paths@.len() ==> #[trigger] paths@[k]@ == candidates(package_path@, module@)[k],
{
    let file = module_file_path(module);
    let chars = chars_of(package_path);
    let ghost f = module_file(module@);
    let mut paths: Vec<String> = Vec::new();
    let mut current = String::new();
    let mut i: usize = 0;
    assert(package_path@.take(0) =~= Seq::<char>::empty());
    while i < chars.len()
        invariant
            i <= chars@.len(),
            chars@ == package_path@,
            file@ == f,
            paths@.len() + 1 == split_colons(package_path@.take(i as int)).len(),
            forall|k: int|
                0 <= k < paths@.len() ==> #[trigger] paths@[k]@ == fill_in(
                    split_colons(package_path@.take(i as int))[k],
                    f,
                ),
            current@ == fill_in(split_colons(package_path@.take(i as int)).last(), f),
        decreases chars@.len() - i,
    {
        let c = chars[i];
        let ghost prefix = package_path@.take(i as int);
        let ghost next = package_path@.take(i + 1);
        assert(next.drop_last() =~= prefix);
        assert(next.last() == c);
        proof {
            lemma_split_colons_nonempty(prefix);
        }
        let ghost pieces = split_colons(prefix);
        if c == ':' {
            let mut done = String::new();
            std::mem::swap(&mut done, &mut current);
            paths.push(done);
            assert(fill_in(Seq::<char>::empty(), f) =~= Seq::<char>::empty());
            assert forall|k: int| 0 <= k < paths@.len() implies #[trigger] paths@[k]@ == fill_in(
                split_colons(next)[k],
                f,
            ) by {
                assert(split_colons(next)[k] == pieces[k]);
            }
        } else {
            let ghost last = pieces.last();
            assert(last.push(c).drop_last() =~= last);
            if c == '?' {
                current.append(file.as_str());
            } else {
                push_char(&mut current, c);
            }
            assert forall|k: int| 0 <= k < paths@.len() implies #[trigger] paths@[k]@ == fill_in(
                split_colons(next)[k],
                f,
            ) by {
                assert(split_colons(next)[k] == pieces[k]);
            }
        }
        i = i + 1;
    }
    assert(package_path@.take(i as int) =~= package_path@);
    proof {
        lemma_split_colons_nonempty(package_path@);
    }
    paths.push(current);
    paths
}

/// Lines joined into one text, with a newline between each two.
pub open spec fn join_lines(lines: Seq<Seq<char>>) -> Seq<char>
    decreases lines.len(),
{
    if lines.len() == 0 {
        Seq::empty()
    } else if lines.len() == 1 {
        lines[0]
    } else {
        join_lines(lines.drop_last()) + seq!['\n'] + lines.last()
    }
}

/// The text of each string.
pub open spec fn texts(strings: Seq<String>) -> Seq<Seq<char>> {
    strings.map_values(|t: String| t@)
}

/// The error message when a module was found nowhere along the package path, listing why each
/// place that was tried failed, one per line.
pub open spec fn not_found_text(module: Seq<char>, failures: Seq<Seq<char>>) -> Seq<char> {
    "module "@ + module + " not found: "@ + join_lines(failures) + seq!['\n']
}

/// The error message when a module was found nowhere along the package path, listing why each
/// place that was tried failed, one per line.
pub fn module_not_found_message(module: &str, tried: &Vec<String>) -> (message: String)
    ensures
        message@ == not_found_text(module@, texts(tried@)),
{
    let mut message = String::from_str("module ");
    message.append(module);
    message.append(" not found: ");
    let ghost head = message@;
    let mut i: usize = 0;
    assert(texts(tried@).take(0) =~= Seq::<Seq<char>>::empty());
    while i < tried.len()
        invariant
            i <= tried@.len(),
            message@ == head + join_lines(texts(tried@).take(i as int)),
        decreases tried@.len() - i,
    {
        let ghost lines = texts(tried@).take(i + 1);
        assert(lines.drop_last() =~= texts(tried@).take(i as int));
        if i > 0 {
            push_char(&mut message, '\n');
        } else {
            assert(lines.len() == 1);
        }
        message.append(tried[i].as_str());
        assert(message@ =~= head + join_lines(lines));
        i = i + 1;
    }
    assert(texts(tried@).take(i as int) =~= texts(tried@));
    push_char(&mut message, '\n');
    message
}

/// A module's source and the path it was read from.
pub struct ModuleSource {
    pub path: String,
    pub source: String,
}

/// A search for a module's file along the package path: the places to look, in order, and why
/// each place looked at so far could not be read. The first place that can be read is where the
/// module is.
pub struct ModuleSearch {
    pub module: String,
    pub paths: Vec<String>,
    pub failures: Vec<String>,
}

/// What a module search does next.
pub enum SearchStep {
    /// Read the file at this path.
    Read(String),
    /// Give up, with this message.
    NotFound(String),
}

impl ModuleSearch {
    /// No more places were looked at than there are.
    pub open spec fn wf(&self) -> bool {
        self.failures@.len() <= self.paths@.len()
    }

    /// A search for `module` along `package_path`, with nothing looked at yet.
    pub fn new(package_path: &str, module: &str) -> (search: Self)
        ensures
            search.wf(),
            search.module@ == module@,
            texts(search.paths@) == candidates(package_path@, module@),
            search.failures@.len() == 0,
    {
        let paths = candidate_paths(package_path, module);
        assert(texts(paths@) =~= candidates(package_path@, module@));
        ModuleSearch { module: module.to_string(), paths, failures: Vec::new() }
    }

    /// The next step: read the next place along the path, or, when every place has failed,
    /// give up with the message that lists why each failed.
    pub fn next_step(&self) -> (step: SearchStep)
        requires
            self.wf(),
        ensures
            self.failures@.len() < self.paths@.len() ==> (step matches SearchStep::Read(path)
                && path@ == self.paths@[self.failures@.len() as int]@),
            self.failures@.len() == self.paths@.len() ==> (step matches SearchStep::NotFound(
                message,
            ) && message@ == not_found_text(self.module@, texts(self.failures@))),
    {
        let n = self.failures.len();
        if n < self.paths.len() {
            SearchStep::Read(self.paths[n].clone())
        } else {
            SearchStep::NotFound(module_not_found_message(self.module.as_str(), &self.failures))
        }
    }

    /// The place of the last `Read` step could not be read, for the given reason: the search
    /// goes on at the next place.
    pub fn read_failed(&mut self, reason: String)
        requires
            old(self).failures@.len() < old(self).paths@.len(),
        ensures
            final(self).wf(),
            final(self).module == old(self).module,
            final(self).paths == old(self).paths,
            final(self).failures@ == old(self).failures@.push(reason),
    {
        self.failures.push(reason);
    }

    /// The place of the last `Read` step was read: the module's source is what was read, from
    /// that place.
    pub fn read_succeeded(&self, source: String) -> (found: ModuleSource)
        requires
            self.failures@.len() < self.paths@.len(),
        ensures
            found.path@ == self.paths@[self.failures@.len() as int]@,
            found.source == source,
    {
        ModuleSource { path: self.paths[self.failures.len()].clone(), source }
    }
}

/// The modules that have been required, by name, each with the value that running its file
/// gave. A module is loaded and run only the first time it is required; after that, requiring it
/// gives the value kept here.
pub struct ModuleCache<V> {
    pub modules: Vec<(String, V)>,
}

/// The name-to-value map that a list of cached modules stands for.
pub open spec fn cache_map<V>(entries: Seq<(String, V)>) -> Map<Seq<char>, V>
    decreases entries.len(),
{
    if entries.len() == 0 {
        Map::empty()
    } else {
        cache_map(entries.drop_last()).insert(entries.last().0@, entries.last().1)
    }
}

/// No module name is cached twice.
pub open spec fn names_distinct<V>(entries: Seq<(String, V)>) -> bool {
    forall|i: int, j: int|
        0 <= i < j < entries.len() ==> (#[trigger] entries[i]).0@ != (#[trigger] entries[j]).0@
}

/// With distinct names, the map holds exactly the cached names, each with its cached value.
proof fn lemma_cache_map<V>(entries: Seq<(String, V)>)
    requires
        names_distinct(entries),
    ensures
        forall|i: int|
            0 <= i < entries.len() ==> #[trigger] cache_map(entries).contains_key(entries[i].0@)
                && cache_map(entries)[entries[i].0@] == entries[i].1,
        forall|k: Seq<char>|
            #[trigger] cache_map(entries).contains_key(k) ==> exists|i: int|
                0 <= i < entries.len() && (#[trigger] entries[i]).0@ == k,
    decreases entries.len(),
{
    if entries.len() > 0 {
        let prev = entries.drop_last();
        assert(names_distinct(prev)) by {
            assert forall|i: int, j: int| 0 <= i < j < prev.len() implies (#[trigger] prev[i]).0@
                != (#[trigger] prev[j]).0@ by {
                assert(prev[i] == entries[i] && prev[j] == entries[j]);
            }
        }
        lemma_cache_map(prev);
        let n = entries.len() - 1;
        assert(entries.last() == entries[n]);
        assert(cache_map(entries) == cache_map(prev).insert(entries[n].0@, entries[n].1));
        assert forall|i: int| 0 <= i < entries.len() implies #[trigger] cache_map(
            entries,
        ).contains_key(entries[i].0@) && cache_map(entries)[entries[i].0@] == entries[i].1 by {
            if i < n {
                assert(prev[i] == entries[i]);
                assert(entries[i].0@ != entries[n].0@);
                assert(cache_map(prev).contains_key(prev[i].0@));
            }
        }
        assert forall|k: Seq<char>| #[trigger] cache_map(entries).contains_key(k) implies exists|
            i: int,
        | 0 <= i < entries.len() && (#[trigger] entries[i]).0@ == k by {
            if k == entries[n].0@ {
                assert(entries[n].0@ == k);
            } else {
                assert(cache_map(prev).contains_key(k));
                let i = choose|i: int| 0 <= i < prev.len() && (#[trigger] prev[i]).0@ == k;
                assert(entries[i] == prev[i]);
            }
        }
    }
}

impl<V> ModuleCache<V> {
    /// The cached modules: each name with the value its file gave.
    pub open spec fn view(&self) -> Map<Seq<char>, V> {
        cache_map(self.modules@)
    }

    /// No module is cached twice.
    pub open spec fn wf(&self) -> bool {
        names_distinct(self.modules@)
    }

    /// A cache with no module in it.
    pub fn new() -> (cache: Self)
        ensures
            cache.wf(),
            cache@ == Map::<Seq<char>, V>::empty(),
    {
        ModuleCache { modules: Vec::new() }
    }

    /// The value of a module that was required before, if it was.
    pub fn get(&self, module: &str) -> (value: Option<&V>)
        requires
            self.wf(),
        ensures
            value is None <==> !self@.contains_key(module@),
            value matches Some(v) ==> self@[module@] == *v,
    {
        let mut i: usize = 0;
        while i < self.modules.len()
            invariant
                self.wf(),
                i <= self.modules@.len(),
                forall|j: int| 0 <= j < i ==> (#[trigger] self.modules@[j]).0@ != module@,
            decreases self.modules@.len() - i,
        {
            if str_eq(self.modules[i].0.as_str(), module) {
                proof {
                    lemma_cache_map(self.modules@);
                }
                return Some(&self.modules[i].1);
            }
            i = i + 1;
        }
        proof {
            lemma_cache_map(self.modules@);
        }
        None
    }

    /// Gives the value of `module`, loading and running its file with `load_and_run` only when
    /// it is not cached yet; what that gives is then cached. An error from it is handed back and
    /// nothing is cached.
    pub fn require<E, F: FnOnce(String) -> Result<V, E>>(&mut self, module: String, load_and_run: F) -> (value: Result<&V, E>)
        requires
            old(self).wf(),
            load_and_run.requires((module,)),
        ensures
            final(self).wf(),
            old(self)@.contains_key(module@) ==> final(self)@ == old(self)@ && (value matches Ok(v)
                && *v == old(self)@[module@]),
            !old(self)@.contains_key(module@) ==> match value {
                Ok(v) => load_and_run.ensures((module,), Ok::<V, E>(*v)) && final(self)@
                    == old(self)@.insert(module@, *v),
                Err(e) => load_and_run.ensures((module,), Err::<V, E>(e)) && final(self)@
                    == old(self)@,
            },
    {
        if self.get(module.as_str()).is_none() {
            let name = module.clone();
            match load_and_run(name) {
                Ok(loaded) => {
                    self.record(module.clone(), loaded);
                },
                Err(e) => {
                    return Err(e);
                },
            }
        }
        let cached = self.get(module.as_str());
        Ok(cached.unwrap())
    }

    /// Keeps the value that running a module's file gave. A module that is cached already keeps
    /// its first value: a module is never loaded anew once it has been.
    pub fn record(&mut self, module: String, value: V)
        requires
            old(self).wf(),
        ensures
            final(self).wf(),
            final(self)@ == recorded(old(self)@, module@, value),
    {
        if self.get(module.as_str()).is_some() {
            return;
        }
        proof {
            lemma_cache_map(self.modules@);
        }
        let ghost before = self.modules@;
        self.modules.push((module, value));
        proof {
            assert(self.modules@.drop_last() =~= before);
            assert forall|i: int, j: int| 0 <= i < j < self.modules@.len() implies (
            #[trigger] self.modules@[i]).0@ != (#[trigger] self.modules@[j]).0@ by {
                if j == before.len() {
                    assert(self.modules@[i] == before[i]);
                    assert(cache_map(before).contains_key(before[i].0@));
                } else {
                    assert(self.modules@[i] == before[i] && self.modules@[j] == before[j]);
                }
            }
        }
    }
}

/// The cache after the value of `module` is recorded: unchanged when the module is cached
/// already, else with the module added.
pub open spec fn recorded<V>(cache: Map<Seq<char>, V>, module: Seq<char>, value: V) -> Map<
    Seq<char>,
    V,
> {
    if cache.contains_key(module) {
        cache
    } else {
        cache.insert(module, value)
    }
}

/// The cache after the values of `loads` are recorded one after the other.
pub open spec fn recorded_all<V>(cache: Map<Seq<char>, V>, loads: Seq<(Seq<char>, V)>) -> Map<
    Seq<char>,
    V,
>
    decreases loads.len(),
{
    if loads.len() == 0 {
        cache
    } else {
        recorded(recorded_all(cache, loads.drop_last()), loads.last().0, loads.last().1)
    }
}

/// A module that has been required is never loaded anew: whatever modules are required after it,
/// it stays cached with the value it first gave.
pub proof fn lemma_required_module_kept<V>(
    cache: Map<Seq<char>, V>,
    loads: Seq<(Seq<char>, V)>,
    module: Seq<char>,
)
    requires
        cache.contains_key(module),
    ensures
        recorded_all(cache, loads).contains_key(module),
        recorded_all(cache, loads)[module] == cache[module],
    decreases loads.len(),
{
    if loads.len() > 0 {
        lemma_required_module_kept(cache, loads.drop_last(), module);
    }
}

} // verus!

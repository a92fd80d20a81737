//! Settings of the daemon: the servers to poll, the pause between two
//! passes and where the log goes.

use vstd::prelude::*;

verus! {

/// File the settings are read from when no other is named.
pub const CONFIG_FILE: &'static str = "config.yaml";

/// One category and the directory its finished downloads are moved to.
#[derive(Debug)]
struct CategoryRule {
    name: String,
    destination: String,
}

impl Clone for CategoryRule {
    fn clone(&self) -> (copy: Self)
        ensures
            copy == *self,
    {
        CategoryRule { name: self.name.clone(), destination: self.destination.clone() }
    }
}

/// The category table of one server: each category name is mapped to at
/// most one destination directory.
#[derive(Debug)]
pub struct Categories {
    rules: Vec<CategoryRule>,
}

/// `key` is the name of the rule at position `i`.
spec fn names_rule(rules: Seq<CategoryRule>, i: int, key: Seq<char>) -> bool {
    0 <= i < rules.len() && rules[i].name@ == key
}

/// No two rules carry the same name.
spec fn distinct_names(rules: Seq<CategoryRule>) -> bool {
    forall|i: int, j: int|
        0 <= i < rules.len() && 0 <= j < rules.len() && i != j ==> rules[i].name@ != rules[j].name@
}

/// The mapping that a list of rules with distinct names stands for.
spec fn rules_map(rules: Seq<CategoryRule>) -> Map<Seq<char>, Seq<char>> {
    Map::new(
        |key: Seq<char>| exists|i: int| names_rule(rules, i, key),
        |key: Seq<char>| rules[choose|i: int| names_rule(rules, i, key)].destination@,
    )
}

/// The rule at `i` is what the mapping holds for its name.
proof fn lemma_rule_is_mapped(rules: Seq<CategoryRule>, i: int)
    requires
        distinct_names(rules),
        0 <= i < rules.len(),
    ensures
        rules_map(rules).contains_key(rules[i].name@),
        rules_map(rules)[rules[i].name@] == rules[i].destination@,
{
    assert(names_rule(rules, i, rules[i].name@));
}

/// A rule put in the place of one of the same name maps that name anew and
/// leaves the other names as they are.
proof fn lemma_rule_replaced(before: Seq<CategoryRule>, i: int, rule: CategoryRule)
    requires
        distinct_names(before),
        names_rule(before, i, rule.name@),
    ensures
        distinct_names(before.update(i, rule)),
        rules_map(before.update(i, rule)) == rules_map(before).insert(
            rule.name@,
            rule.destination@,
        ),
{
    let after = before.update(i, rule);
    let wanted = rules_map(before).insert(rule.name@, rule.destination@);
    assert forall|k: Seq<char>| #[trigger]
        rules_map(after).contains_key(k) == wanted.contains_key(k) by {
        if rules_map(after).contains_key(k) {
            let j = choose|j: int| names_rule(after, j, k);
            assert(names_rule(before, j, k));
        }
        if rules_map(before).contains_key(k) {
            let j = choose|j: int| names_rule(before, j, k);
            assert(names_rule(after, j, k));
        }
    }
    assert forall|k: Seq<char>| #[trigger] rules_map(after).contains_key(k) implies rules_map(
        after,
    )[k] == wanted[k] by {
        let j = choose|j: int| names_rule(after, j, k);
        lemma_rule_is_mapped(after, j);
        if j != i {
            lemma_rule_is_mapped(before, j);
        }
    }
}

/// A rule of a new name, put at the end, maps that name and leaves the other
/// names as they are.
proof fn lemma_rule_added(before: Seq<CategoryRule>, rule: CategoryRule)
    requires
        distinct_names(before),
        forall|i: int| !names_rule(before, i, rule.name@),
    ensures
        distinct_names(before.push(rule)),
        rules_map(before.push(rule)) == rules_map(before).insert(rule.name@, rule.destination@),
{
    let after = before.push(rule);
    let last = before.len() as int;
    let wanted = rules_map(before).insert(rule.name@, rule.destination@);
    assert forall|a: int, b: int|
        0 <= a < after.len() && 0 <= b < after.len() && a != b implies after[a].name@
        != after[b].name@ by {
        if a == last {
            assert(!names_rule(before, b, rule.name@));
        } else if b == last {
            assert(!names_rule(before, a, rule.name@));
        }
    }
    assert forall|k: Seq<char>| #[trigger]
        rules_map(after).contains_key(k) == wanted.contains_key(k) by {
        if rules_map(after).contains_key(k) {
            let j = choose|j: int| names_rule(after, j, k);
            if j != last {
                assert(names_rule(before, j, k));
            }
        }
        if rules_map(before).contains_key(k) {
            let j = choose|j: int| names_rule(before, j, k);
            assert(names_rule(after, j, k));
        }
        if k == rule.name@ {
            assert(names_rule(after, last, k));
        }
    }
    assert forall|k: Seq<char>| #[trigger] rules_map(after).contains_key(k) implies rules_map(
        after,
    )[k] == wanted[k] by {
        let j = choose|j: int| names_rule(after, j, k);
        lemma_rule_is_mapped(after, j);
        if j != last {
            lemma_rule_is_mapped(before, j);
        }
    }
}

impl View for Categories {
    type V = Map<Seq<char>, Seq<char>>;

    closed spec fn view(&self) -> Map<Seq<char>, Seq<char>> {
        rules_map(self.rules@)
    }
}

impl Clone for Categories {
    fn clone(&self) -> (copy: Self)
        ensures
            copy@ == self@,
    {
        proof {
            use_type_invariant(self);
        }
        let mut rules: Vec<CategoryRule> = Vec::new();
        let mut i: usize = 0;
        while i < self.rules.len()
            invariant
                i <= self.rules.len(),
                rules@ == self.rules@.subrange(0, i as int),
            decreases self.rules.len() - i,
        {
            rules.push(self.rules[i].clone());
            i += 1;
        }
        assert(rules@ == self.rules@);
        Categories { rules }
    }
}

impl PartialEq for Categories {
    /// Two tables are equal where they map the same categories to the same
    /// directories, in whatever order they were filled.
    fn eq(&self, other: &Self) -> (equal: bool) {
        let equal = self.is_part_of(other) && other.is_part_of(self);
        proof {
            if equal {
                assert(self@ =~= other@);
            }
        }
        equal
    }
}

impl vstd::std_specs::cmp::PartialEqSpecImpl for Categories {
    open spec fn obeys_eq_spec() -> bool {
        true
    }

    open spec fn eq_spec(&self, other: &Self) -> bool {
        self@ == other@
    }
}

impl Categories {
    #[verifier::type_invariant]
    spec fn well_formed(&self) -> bool {
        distinct_names(self.rules@)
    }

    /// A table without any category.
    pub fn new() -> (table: Self)
        ensures
            table@ == Map::<Seq<char>, Seq<char>>::empty(),
    {
        Categories { rules: Vec::new() }
    }

    /// Whether the table maps no category at all.
    pub fn is_empty(&self) -> (empty: bool)
        ensures
            empty == (self@ == Map::<Seq<char>, Seq<char>>::empty()),
    {
        let empty = self.rules.len() == 0;
        proof {
            if empty {
                assert(self@ =~= Map::<Seq<char>, Seq<char>>::empty());
            } else {
                assert(names_rule(self.rules@, 0, self.rules@[0].name@));
                assert(self@.contains_key(self.rules@[0].name@));
            }
        }
        empty
    }

    /// Position of the rule named `name`, if the table has one.
    fn position(&self, name: &String) -> (found: Option<usize>)
        ensures
            match found {
                Some(i) => names_rule(self.rules@, i as int, name@),
                None => forall|i: int| !names_rule(self.rules@, i, name@),
            },
    {
        let mut i: usize = 0;
        while i < self.rules.len()
            invariant
                i <= self.rules.len(),
                forall|j: int| 0 <= j < i ==> !names_rule(self.rules@, j, name@),
            decreases self.rules.len() - i,
        {
            if self.rules[i].name == *name {
                return Some(i);
            }
            i += 1;
        }
        None
    }

    /// The destination directory of `name`, or nothing where the table has
    /// no such category.
    pub fn get(&self, name: &str) -> (destination: Option<&String>)
        ensures
            match destination {
                Some(d) => self@.contains_key(name@) && self@[name@] == d@,
                None => !self@.contains_key(name@),
            },
    {
        proof {
            use_type_invariant(self);
        }
        let key = name.to_owned();
        match self.position(&key) {
            Some(i) => {
                proof {
                    lemma_rule_is_mapped(self.rules@, i as int);
                }
                Some(&self.rules[i].destination)
            },
            None => None,
        }
    }

    /// Whether every category of this table is mapped by `other` too, and
    /// to the same directory.
    fn is_part_of(&self, other: &Categories) -> (part: bool)
        ensures
            part == self@.submap_of(other@),
    {
        proof {
            use_type_invariant(self);
            use_type_invariant(other);
        }
        let mut i: usize = 0;
        while i < self.rules.len()
            invariant
                i <= self.rules.len(),
                distinct_names(self.rules@),
                distinct_names(other.rules@),
                forall|j: int|
                    0 <= j < i ==> other@.contains_key(#[trigger] self.rules[j].name@)
                        && other@[self.rules[j].name@] == self.rules[j].destination@,
            decreases self.rules.len() - i,
        {
            proof {
                lemma_rule_is_mapped(self.rules@, i as int);
            }
            match other.position(&self.rules[i].name) {
                Some(j) => {
                    proof {
                        lemma_rule_is_mapped(other.rules@, j as int);
                    }
                    if !(other.rules[j].destination == self.rules[i].destination) {
                        return false;
                    }
                },
                None => {
                    assert(!other@.dom().contains(self.rules[i as int].name@));
                    return false;
                },
            }
            i += 1;
        }
        proof {
            assert forall|key: Seq<char>| #[trigger]
                self@.dom().contains(key) implies other@.dom().contains(key) && self@[key]
                == other@[key] by {
                let j = choose|j: int| names_rule(self.rules@, j, key);
                lemma_rule_is_mapped(self.rules@, j);
            }
        }
        true
    }

    /// The names of all categories of the table, each once.
    pub fn names(&self) -> (names: Vec<String>)
        ensures
            forall|i: int| 0 <= i < names.len() ==> self@.contains_key(#[trigger] names[i]@),
            forall|key: Seq<char>|
                self@.contains_key(key) ==> exists|i: int|
                    0 <= i < names.len() && #[trigger] names[i]@ == key,
            forall|i: int, j: int|
                0 <= i < names.len() && 0 <= j < names.len() && i != j ==> names[i]@ != names[j]@,
    {
        proof {
            use_type_invariant(self);
        }
        let mut names: Vec<String> = Vec::new();
        let mut i: usize = 0;
        while i < self.rules.len()
            invariant
                i <= self.rules.len(),
                names.len() == i,
                forall|j: int| 0 <= j < i ==> names[j]@ == self.rules[j].name@,
            decreases self.rules.len() - i,
        {
            names.push(self.rules[i].name.clone());
            i += 1;
        }
        proof {
            assert forall|j: int| 0 <= j < names.len() implies self@.contains_key(
                #[trigger] names[j]@,
            ) by {
                assert(names_rule(self.rules@, j, names[j]@));
            }
            assert forall|key: Seq<char>| self@.contains_key(key) implies exists|j: int|
                0 <= j < names.len() && #[trigger] names[j]@ == key by {
                let j = choose|j: int| names_rule(self.rules@, j, key);
                assert(names[j]@ == key);
            }
        }
        names
    }

    /// Maps `name` to `destination`, in place of what it was mapped to
    /// before; the other categories stay as they are.
    pub fn insert(&mut self, name: String, destination: String)
        ensures
            final(self)@ == old(self)@.insert(name@, destination@),
    {
        proof {
            use_type_invariant(&*self);
        }
        let ghost before = self.rules@;
        let found = self.position(&name);
        // The list is edited outside the table, which holds no rule meanwhile.
        let mut rules: Vec<CategoryRule> = Vec::new();
        std::mem::swap(&mut rules, &mut self.rules);
        let rule = CategoryRule { name, destination };
        match found {
            Some(i) => {
                proof {
                    lemma_rule_replaced(before, i as int, rule);
                }
                rules.set(i, rule);
            },
            None => {
                proof {
                    lemma_rule_added(before, rule);
                }
                rules.push(rule);
            },
        }
        self.rules = rules;
    }
}

/// One qBittorrent server: where it answers, how to log in, and where the
/// downloads of each category go.
#[derive(Debug, PartialEq)]
pub struct ServerConfig {
    pub qbit_url: String,
    pub username: String,
    pub password: String,
    /// Destination directory of each category; a download of a category
    /// that is not listed stays where it is.
    pub categories: Categories,
    /// Local directory under which the server's downloads are found.
    pub root_path: Option<String>,
    /// Leading part of the paths the server reports that is cut off before
    /// they are looked up under `root_path`.
    pub path_prefix: Option<String>,
}

impl ServerConfig {
    /// The two settings say the same: their texts are equal and their
    /// categories are mapped alike.
    pub open spec fn same_as(&self, other: &ServerConfig) -> bool {
        &&& self.qbit_url == other.qbit_url
        &&& self.username == other.username
        &&& self.password == other.password
        &&& self.categories@ == other.categories@
        &&& self.root_path == other.root_path
        &&& self.path_prefix == other.path_prefix
    }
}

impl Clone for ServerConfig {
    fn clone(&self) -> (copy: Self)
        ensures
            copy.same_as(self),
    {
        ServerConfig {
            qbit_url: self.qbit_url.clone(),
            username: self.username.clone(),
            password: self.password.clone(),
            categories: self.categories.clone(),
            root_path: match &self.root_path {
                Some(root) => Some(root.clone()),
                None => None,
            },
            path_prefix: match &self.path_prefix {
                Some(prefix) => Some(prefix.clone()),
                None => None,
            },
        }
    }
}

impl Default for ServerConfig {
    fn default() -> (server: Self)
        ensures
            server.qbit_url@ == "http://localhost:8080"@,
            server.username@ == "admin"@,
            server.password@ == "adminadmin"@,
            server.categories@ == Map::<Seq<char>, Seq<char>>::empty(),
            server.root_path is None,
            server.path_prefix is None,
    {
        ServerConfig {
            qbit_url: "http://localhost:8080".to_owned(),
            username: "admin".to_owned(),
            password: "adminadmin".to_owned(),
            categories: Categories::new(),
            root_path: None,
            path_prefix: None,
        }
    }
}

/// Everything the daemon is told at its start.
#[derive(Debug)]
pub struct Config {
    pub servers: Vec<ServerConfig>,
    /// Seconds between the end of one pass and the start of the next.
    pub rate_limit_delay: u64,
    pub log_file: String,
    /// Size at which the log file is rotated: a number, or a number
    /// followed by `M` or `G`.
    pub max_log_file_size: String,
}

impl Clone for Config {
    fn clone(&self) -> (copy: Self)
        ensures
            copy.servers.len() == self.servers.len(),
            forall|i: int|
                0 <= i < self.servers.len() ==> (#[trigger] copy.servers[i]).same_as(
                    &self.servers[i],
                ),
            copy.rate_limit_delay == self.rate_limit_delay,
            copy.log_file == self.log_file,
            copy.max_log_file_size == self.max_log_file_size,
    {
        let mut servers: Vec<ServerConfig> = Vec::new();
        let mut i: usize = 0;
        while i < self.servers.len()
            invariant
                i <= self.servers.len(),
                servers.len() == i,
                forall|j: int| 0 <= j < i ==> (#[trigger] servers[j]).same_as(&self.servers[j]),
            decreases self.servers.len() - i,
        {
            servers.push(self.servers[i].clone());
            i += 1;
        }
        Config {
            servers,
            rate_limit_delay: self.rate_limit_delay,
            log_file: self.log_file.clone(),
            max_log_file_size: self.max_log_file_size.clone(),
        }
    }
}

impl Default for Config {
    fn default() -> (config: Self)
        ensures
            config.servers@.len() == 0,
            config.rate_limit_delay == 5,
            config.log_file@ == "qbittorrent-mover.log"@,
            config.max_log_file_size@ == "10M"@,
    {
        Config {
            servers: Vec::new(),
            rate_limit_delay: 5,
            log_file: "qbittorrent-mover.log".to_owned(),
            max_log_file_size: "10M".to_owned(),
        }
    }
}

} // verus!

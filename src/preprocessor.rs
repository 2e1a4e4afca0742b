//! The text preprocessing chain: remap tables of search/replace rules.
use vstd::prelude::*;
use crate::config::Mapping;
use crate::pattern::{regex_compiles, regex_matches, regex_replaced, Pattern};

verus! {

/// A transform of a recognized phrase.
pub trait ITextPreprocessor {
    /// The text that `process` returns.
    spec fn processed(&self, input: Seq<char>) -> Seq<char>;

    fn process(&self, input: &str) -> (r: String)
        ensures
            r@ == self.processed(input@),
    ;
}

/// One rule of a remap table: a compiled search pattern and its replacement.
pub struct Rule {
    pub pattern: Pattern,
    pub replace: String,
}

/// The rules of a table as (pattern, template) pairs.
pub open spec fn rules_view(rules: Seq<Rule>) -> Seq<((Seq<char>, bool), Seq<char>)> {
    rules.map_values(|r: Rule| (r.pattern@, r.replace@))
}

/// A remap table applied to `text`: the first rule whose pattern matches
/// replaces every match of it; with no match the text is left as it is.
pub open spec fn remap(rules: Seq<((Seq<char>, bool), Seq<char>)>, text: Seq<char>) -> Seq<char>
    decreases rules.len(),
{
    if rules.len() == 0 {
        text
    } else if regex_matches(rules[0].0.0, rules[0].0.1, text) {
        regex_replaced(rules[0].0.0, rules[0].0.1, text, rules[0].1)
    } else {
        remap(rules.skip(1), text)
    }
}

/// The first rule that matches decides: when rule `k` matches and no rule
/// before it does, the table's result is rule `k`'s replacement, whatever
/// the rules after it would do.
pub proof fn lemma_first_match_wins(
    rules: Seq<((Seq<char>, bool), Seq<char>)>,
    text: Seq<char>,
    k: int,
)
    requires
        0 <= k < rules.len(),
        regex_matches(rules[k].0.0, rules[k].0.1, text),
        forall|j: int| 0 <= j < k ==> !regex_matches(#[trigger] rules[j].0.0, rules[j].0.1, text),
    ensures
        remap(rules, text) == regex_replaced(rules[k].0.0, rules[k].0.1, text, rules[k].1),
    decreases k,
{
    if k > 0 {
        let rest = rules.skip(1);
        assert forall|j: int| 0 <= j < k - 1 implies !regex_matches(
            #[trigger] rest[j].0.0,
            rest[j].0.1,
            text,
        ) by {
            assert(rest[j] == rules[j + 1]);
        }
        assert(rest[k - 1] == rules[k]);
        assert(!regex_matches(rules[0].0.0, rules[0].0.1, text));
        lemma_first_match_wins(rest, text, k - 1);
    }
}

/// Whether every search pattern of `maps` compiles, matching case exactly.
pub open spec fn all_compile(maps: Seq<Mapping>) -> bool {
    forall|i: int| 0 <= i < maps.len() ==> regex_compiles(#[trigger] maps[i].search@, false)
}

/// A remap table.
pub struct SimpleMapper {
    pub mappings: Vec<Rule>,
}

impl SimpleMapper {
    /// Compiles each search pattern, matching case exactly. The error is the
    /// index of the first pattern that does not compile.
    pub fn from_mappings(maps: &Vec<Mapping>) -> (r: Result<SimpleMapper, usize>)
        ensures
            r is Ok <==> all_compile(maps@),
            r is Ok ==> rules_view(r->Ok_0.mappings@).len() == maps@.len(),
            r is Ok ==> forall|i: int|
                0 <= i < maps@.len() ==> #[trigger] rules_view(r->Ok_0.mappings@)[i] == (
                    (maps@[i].search@, false),
                    maps@[i].replace@,
                ),
            r is Err ==> {
                let k = r->Err_0 as int;
                &&& 0 <= k < maps@.len()
                &&& !regex_compiles(maps@[k].search@, false)
                &&& all_compile(maps@.subrange(0, k))
            },
    {
        let mut rules: Vec<Rule> = Vec::new();
        let mut i: usize = 0;
        while i < maps.len()
            invariant
                i <= maps.len(),
                rules@.len() == i,
                all_compile(maps@.subrange(0, i as int)),
                forall|j: int|
                    0 <= j < i ==> (#[trigger] rules@[j]).pattern@ == (maps@[j].search@, false)
                        && rules@[j].replace@ == maps@[j].replace@,
            decreases maps.len() - i,
        {
            match Pattern::new(maps[i].search.as_str(), false) {
                Some(p) => {
                    rules.push(Rule { pattern: p, replace: maps[i].replace.clone() });
                    assert forall|j: int| 0 <= j < i + 1 implies regex_compiles(
                        #[trigger] maps@.subrange(0, i + 1)[j].search@,
                        false,
                    ) by {
                        if j < i {
                            assert(maps@.subrange(0, i + 1)[j] == maps@.subrange(0, i as int)[j]);
                        }
                    }
                },
                None => {
                    return Err(i);
                },
            }
            i = i + 1;
        }
        assert(maps@.subrange(0, maps.len() as int) =~= maps@);
        assert forall|j: int| 0 <= j < maps@.len() implies #[trigger] rules_view(rules@)[j] == (
            (maps@[j].search@, false),
            maps@[j].replace@,
        ) by {
            assert(rules@[j].pattern@ == (maps@[j].search@, false));
        }
        Ok(SimpleMapper { mappings: rules })
    }
}

impl ITextPreprocessor for SimpleMapper {
    open spec fn processed(&self, input: Seq<char>) -> Seq<char> {
        remap(rules_view(self.mappings@), input)
    }

    fn process(&self, input: &str) -> (r: String) {
        let ghost all = rules_view(self.mappings@);
        let mut i: usize = 0;
        assert(all.skip(0) =~= all);
        while i < self.mappings.len()
            invariant
                i <= self.mappings.len(),
                all == rules_view(self.mappings@),
                all.len() == self.mappings@.len(),
                remap(all, input@) == remap(all.skip(i as int), input@),
            decreases self.mappings.len() - i,
        {
            let rule = &self.mappings[i];
            assert(all.skip(i as int)[0] == (rule.pattern@, rule.replace@));
            assert(all.skip(i as int).skip(1) =~= all.skip(i + 1));
            if rule.pattern.is_match(input) {
                return rule.pattern.replace_all(input, rule.replace.as_str());
            }
            i = i + 1;
        }
        assert(all.skip(i as int).len() == 0);
        String::from_str(input)
    }
}

/// A preprocessor whose configuration was loaded from another file.
pub struct RedirectConfig {
    pub path: String,
    pub processor: Box<Preprocessor>,
}

/// A preprocessor of either kind.
pub enum Preprocessor {
    Remap(SimpleMapper),
    Redirect(RedirectConfig),
}

impl Preprocessor {
    /// The text that this preprocessor makes of `input`.
    pub open spec fn apply_spec(&self, input: Seq<char>) -> Seq<char>
        decreases self,
    {
        match self {
            Preprocessor::Remap(m) => m.processed(input),
            Preprocessor::Redirect(r) => r.processor.apply_spec(input),
        }
    }

    pub fn apply(&self, input: &str) -> (r: String)
        ensures
            r@ == self.apply_spec(input@),
        decreases self,
    {
        match self {
            Preprocessor::Remap(m) => m.process(input),
            Preprocessor::Redirect(r) => r.processor.apply(input),
        }
    }
}

impl ITextPreprocessor for Preprocessor {
    open spec fn processed(&self, input: Seq<char>) -> Seq<char> {
        self.apply_spec(input)
    }

    fn process(&self, input: &str) -> (r: String) {
        self.apply(input)
    }
}

impl RedirectConfig {
    /// A redirect to `path`, whose file held the configuration of `processor`.
    pub fn from_parts(path: String, processor: Preprocessor) -> (r: RedirectConfig)
        ensures
            r.path == path,
            *r.processor == processor,
    {
        RedirectConfig { path, processor: Box::new(processor) }
    }
}

impl ITextPreprocessor for RedirectConfig {
    open spec fn processed(&self, input: Seq<char>) -> Seq<char> {
        self.processor.apply_spec(input)
    }

    fn process(&self, input: &str) -> (r: String) {
        self.processor.apply(input)
    }
}

/// Applies each preprocessor in order, each to the output of the one before.
pub open spec fn chain(pres: Seq<Preprocessor>, input: Seq<char>) -> Seq<char>
    decreases pres.len(),
{
    if pres.len() == 0 {
        input
    } else {
        pres.last().apply_spec(chain(pres.drop_last(), input))
    }
}

/// Runs the preprocessing chain on `input`.
pub fn preprocess(pres: &Vec<Preprocessor>, input: &str) -> (r: String)
    ensures
        r@ == chain(pres@, input@),
{
    let mut text = String::from_str(input);
    let mut i: usize = 0;
    while i < pres.len()
        invariant
            i <= pres.len(),
            text@ == chain(pres@.subrange(0, i as int), input@),
        decreases pres.len() - i,
    {
        assert(pres@.subrange(0, i + 1).drop_last() =~= pres@.subrange(0, i as int));
        text = pres[i].apply(text.as_str());
        i = i + 1;
    }
    assert(pres@.subrange(0, pres.len() as int) =~= pres@);
    text
}

} // verus!

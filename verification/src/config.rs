//! The configuration, its defaults, and the text that it is read from.

use vstd::prelude::*;

use crate::filters::EuiPrefix;

verus! {

/// The configuration of the multiplexer.
#[derive(Debug, PartialEq, Eq)]
pub struct Configuration {
    pub logging: Logging,
    pub multiplexer: Multiplexer,
    pub monitoring: Monitoring,
}

impl Default for Configuration {
    fn default() -> (config: Configuration)
        ensures
            config.logging.level@ == "info"@,
            config.multiplexer.bind@ == "0.0.0.0:1700"@,
            config.multiplexer.servers@.len() == 0,
            config.monitoring.bind@.len() == 0,
    {
        Configuration {
            logging: Logging::default(),
            multiplexer: Multiplexer::default(),
            monitoring: Monitoring::default(),
        }
    }
}

/// What is logged.
#[derive(Debug, PartialEq, Eq)]
pub struct Logging {
    /// The lowest level that is logged.
    pub level: String,
}

impl Default for Logging {
    fn default() -> (logging: Logging)
        ensures
            logging.level@ == "info"@,
    {
        Logging { level: String::from_str("info") }
    }
}

/// Where the multiplexer listens and where it forwards to.
#[derive(Debug, PartialEq, Eq)]
pub struct Multiplexer {
    /// Interface and port on which the gateways are heard.
    pub bind: String,
    /// The upstream servers, in the order in which they are served.
    pub servers: Vec<Server>,
}

impl Default for Multiplexer {
    fn default() -> (multiplexer: Multiplexer)
        ensures
            multiplexer.bind@ == "0.0.0.0:1700"@,
            multiplexer.servers@.len() == 0,
    {
        Multiplexer { bind: String::from_str("0.0.0.0:1700"), servers: Vec::new() }
    }
}

/// One upstream server.
#[derive(Clone, Debug, PartialEq, Eq)]
pub struct Server {
    /// Host name and port of the server.
    pub server: String,
    /// Whether downlinks of the server are dropped.
    pub uplink_only: bool,
    /// The prefixes of the gateways whose frames the server takes; with none,
    /// it takes the frames of every gateway.
    pub gateway_id_prefixes: Vec<EuiPrefix>,
}

impl Default for Server {
    fn default() -> (server: Server)
        ensures
            server.server@.len() == 0,
            !server.uplink_only,
            server.gateway_id_prefixes@.len() == 0,
    {
        Server { server: String::new(), uplink_only: false, gateway_id_prefixes: Vec::new() }
    }
}

/// Where the counters are exposed.
#[derive(Clone, Debug, PartialEq, Eq)]
pub struct Monitoring {
    /// Interface and port of the endpoint; empty where there is none.
    pub bind: String,
}

impl Default for Monitoring {
    fn default() -> (monitoring: Monitoring)
        ensures
            monitoring.bind@.len() == 0,
    {
        Monitoring { bind: String::new() }
    }
}

impl Monitoring {
    /// Tells whether the endpoint is asked for: the bind address is not
    /// empty.
    pub fn enabled(&self) -> (enabled: bool)
        ensures
            enabled == (self.bind@.len() > 0),
    {
        !self.bind.as_str().is_empty()
    }
}

/// A text in which every match of a pattern is replaced by another text.
/// The matches are taken from left to right, and none starts inside the
/// match before it: where the text starts with the pattern, the replacement
/// stands for it and the rest follows, replaced; elsewhere the first
/// character stays and the rest follows, replaced.
pub open spec fn replaced(text: Seq<char>, pattern: Seq<char>, with: Seq<char>) -> Seq<char>
    recommends
        pattern.len() > 0,
    decreases text.len(),
{
    if pattern.len() == 0 || text.len() < pattern.len() {
        text
    } else if text.take(pattern.len() as int) == pattern {
        with + replaced(text.skip(pattern.len() as int), pattern, with)
    } else {
        seq![text[0]] + replaced(text.skip(1), pattern, with)
    }
}

/// Whether a pattern stands in a text at the given place.
pub open spec fn matches_at(text: Seq<char>, pattern: Seq<char>, at: int) -> bool {
    0 <= at && at + pattern.len() <= text.len() && text.subrange(at, at + pattern.len())
        == pattern
}

/// A text in which the pattern stands nowhere stays as it is.
pub proof fn lemma_replaced_without_match(text: Seq<char>, pattern: Seq<char>, with: Seq<char>)
    requires
        pattern.len() > 0,
        forall|at: int| !matches_at(text, pattern, at),
    ensures
        replaced(text, pattern, with) == text,
    decreases text.len(),
{
    if text.len() >= pattern.len() {
        let rest = text.skip(1);
        assert(!matches_at(text, pattern, 0));
        assert(text.take(pattern.len() as int) =~= text.subrange(0int, 0int + pattern.len()));
        assert forall|at: int| !matches_at(rest, pattern, at) by {
            if matches_at(rest, pattern, at) {
                assert(rest.subrange(at, at + pattern.len()) =~= text.subrange(
                    at + 1,
                    at + 1 + pattern.len(),
                ));
                assert(matches_at(text, pattern, at + 1));
            }
        }
        lemma_replaced_without_match(rest, pattern, with);
        assert(seq![text[0]] + rest =~= text);
    }
}

/// Where the pattern stands in a text for the first time behind `before`,
/// the text becomes `before`, the replacement, and what follows the pattern,
/// replaced in turn.
pub proof fn lemma_replaced_first_match(
    before: Seq<char>,
    pattern: Seq<char>,
    after: Seq<char>,
    with: Seq<char>,
)
    requires
        pattern.len() > 0,
        forall|at: int| 0 <= at < before.len() ==> !matches_at(before + pattern + after, pattern, at),
    ensures
        replaced(before + pattern + after, pattern, with) == before + with + replaced(
            after,
            pattern,
            with,
        ),
    decreases before.len(),
{
    let text = before + pattern + after;
    if before.len() == 0 {
        assert(text.take(pattern.len() as int) =~= pattern);
        assert(text.skip(pattern.len() as int) =~= after);
        assert(before + with + replaced(after, pattern, with) =~= with + replaced(
            after,
            pattern,
            with,
        ));
    } else {
        let shorter = before.skip(1);
        let rest = shorter + pattern + after;
        assert(text.skip(1) =~= rest);
        assert(!matches_at(text, pattern, 0));
        assert(text.take(pattern.len() as int) =~= text.subrange(0int, 0int + pattern.len()));
        assert forall|at: int| 0 <= at < shorter.len() implies !matches_at(rest, pattern, at) by {
            if matches_at(rest, pattern, at) {
                assert(rest.subrange(at, at + pattern.len()) =~= text.subrange(
                    at + 1,
                    at + 1 + pattern.len(),
                ));
                assert(matches_at(text, pattern, at + 1));
            }
        }
        lemma_replaced_first_match(shorter, pattern, after, with);
        assert(seq![text[0]] + (shorter + with + replaced(after, pattern, with)) =~= before + with
            + replaced(after, pattern, with));
    }
}

/// `str::replace` with a pattern that is not empty. The contract claims what
/// its documentation says: a new text in which every match of the pattern is
/// replaced by the other text, the matches taken from left to right and none
/// of them starting inside the match before it.
#[verifier::external_body]
fn replace_all(text: &str, pattern: &str, with: &str) -> (out: String)
    requires
        pattern@.len() > 0,
    ensures
        out@ == replaced(text@, pattern@, with@),
{
    text.replace(pattern, with)
}

/// The texts of a sequence, one after the other.
pub open spec fn concatenated(texts: Seq<Seq<char>>) -> Seq<char>
    decreases texts.len(),
{
    if texts.len() == 0 {
        Seq::empty()
    } else {
        concatenated(texts.drop_last()) + texts.last()
    }
}

/// The text in which, for each variable in turn, every `$` followed by the
/// name of the variable has been replaced by its value.
pub open spec fn substituted(text: Seq<char>, variables: Seq<(Seq<char>, Seq<char>)>) -> Seq<
    char,
>
    decreases variables.len(),
{
    if variables.len() == 0 {
        text
    } else {
        replaced(
            substituted(text, variables.drop_last()),
            seq!['$'] + variables.last().0,
            variables.last().1,
        )
    }
}

/// What a vector of strings stands for.
pub open spec fn texts_view(texts: Seq<String>) -> Seq<Seq<char>> {
    texts.map_values(|text: String| text@)
}

/// What a vector of variables, each a name and a value, stands for.
pub open spec fn variables_view(variables: Seq<(String, String)>) -> Seq<(Seq<char>, Seq<char>)> {
    variables.map_values(|variable: (String, String)| (variable.0@, variable.1@))
}

/// Puts the contents of the configuration files one after the other.
pub fn concatenate(contents: &Vec<String>) -> (content: String)
    ensures
        content@ == concatenated(texts_view(contents@)),
{
    let mut content = String::new();
    let mut i: usize = 0;
    while i < contents.len()
        invariant
            i <= contents.len(),
            content@ == concatenated(texts_view(contents@).take(i as int)),
        decreases contents.len() - i,
    {
        content.append(contents[i].as_str());
        proof {
            let texts = texts_view(contents@);
            assert(texts.take(i + 1).drop_last() =~= texts.take(i as int));
        }
        i = i + 1;
    }
    proof {
        let texts = texts_view(contents@);
        assert(texts.take(i as int) =~= texts);
    }
    content
}

/// Replaces, for each variable in turn, every `$` followed by the name of
/// the variable by its value.
pub fn substitute(content: String, variables: &Vec<(String, String)>) -> (out: String)
    ensures
        out@ == substituted(content@, variables_view(variables@)),
{
    proof {
        reveal_strlit("$");
    }
    let mut out = content;
    let mut i: usize = 0;
    while i < variables.len()
        invariant
            i <= variables.len(),
            "$"@ == seq!['$'],
            out@ == substituted(content@, variables_view(variables@).take(i as int)),
        decreases variables.len() - i,
    {
        let mut pattern = String::from_str("$");
        pattern.append(variables[i].0.as_str());
        out = replace_all(out.as_str(), pattern.as_str(), variables[i].1.as_str());
        proof {
            let all = variables_view(variables@);
            assert(all.take(i + 1).drop_last() =~= all.take(i as int));
        }
        i = i + 1;
    }
    proof {
        let all = variables_view(variables@);
        assert(all.take(i as int) =~= all);
    }
    out
}

impl Configuration {
    /// The text of the configuration: the contents of the files, one after
    /// the other, with the variables substituted.
    pub fn source(contents: &Vec<String>, variables: &Vec<(String, String)>) -> (text: String)
        ensures
            text@ == substituted(
                concatenated(texts_view(contents@)),
                variables_view(variables@),
            ),
    {
        substitute(concatenate(contents), variables)
    }
}

} // verus!

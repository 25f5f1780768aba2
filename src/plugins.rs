//! Plugins: named helper programs that the settings list.
use crate::errors::PluginError;
use crate::settings::Settings;
use crate::text::{char_is_white, chars_of, is_white};
use vstd::prelude::*;
use vstd::string::*;

verus! {

/// What a plugin stands for: its name and the command line that runs it.
pub struct PluginModel {
    pub name: Seq<char>,
    pub command: Seq<char>,
}

/// A named helper program and the command line that runs it.
#[derive(Debug)]
pub struct Plugin {
    pub name: String,
    pub command: String,
}

impl View for Plugin {
    type V = PluginModel;

    open spec fn view(&self) -> PluginModel {
        PluginModel { name: self.name@, command: self.command@ }
    }
}

/// The models of a list of plugins.
pub open spec fn plugins_view(v: Seq<Plugin>) -> Seq<PluginModel> {
    v.map_values(|p: Plugin| p@)
}

/// `i` is the first position of a plugin named `name`.
pub open spec fn first_plugin_at(plugins: Seq<PluginModel>, name: Seq<char>, i: int) -> bool {
    &&& 0 <= i < plugins.len()
    &&& plugins[i].name == name
    &&& forall|j: int| 0 <= j < i ==> plugins[j].name != name
}

impl Plugin {
    pub fn get_name(&self) -> (r: &String)
        ensures
            r@ == self.name@,
    {
        &self.name
    }

    pub fn get_exec(&self) -> (r: &String)
        ensures
            r@ == self.command@,
    {
        &self.command
    }
}

impl Clone for Plugin {
    fn clone(&self) -> (r: Self)
        ensures
            r == *self,
    {
        Plugin { name: self.name.clone(), command: self.command.clone() }
    }
}

impl Default for Plugin {
    fn default() -> (r: Plugin)
        ensures
            r@ == (PluginModel { name: Seq::empty(), command: Seq::empty() }),
    {
        Plugin { name: String::new(), command: String::new() }
    }
}

/// A plugin of the given name and command line.
pub fn new(name: &str, command: &str) -> (r: Plugin)
    ensures
        r@ == (PluginModel { name: name@, command: command@ }),
{
    Plugin { name: String::from_str(name), command: String::from_str(command) }
}

/// The first plugin of the settings whose name is `q_plugin`.
pub fn get_plugin(settings: &Settings, q_plugin: &str) -> (r: Result<Plugin, PluginError>)
    ensures
        match r {
            Ok(p) => exists|i: int| first_plugin_at(settings@.plugins, q_plugin@, i) && p@ == settings@.plugins[i],
            Err(PluginError::PluginNotFound { plugin }) => plugin@ == q_plugin@ && forall|j: int|
                0 <= j < settings@.plugins.len() ==> settings@.plugins[j].name != q_plugin@,
            Err(_) => false,
        },
{
    let plugins = &settings.plugins;
    let wanted = String::from_str(q_plugin);
    let mut i: usize = 0;
    while i < plugins.len()
        invariant
            settings@.plugins == plugins_view(plugins@),
            wanted@ == q_plugin@,
            i <= plugins.len(),
            forall|j: int| 0 <= j < i ==> settings@.plugins[j].name != q_plugin@,
        decreases plugins.len() - i,
    {
        if plugins[i].name == wanted {
            let p = plugins[i].clone();
            assert(first_plugin_at(settings@.plugins, q_plugin@, i as int));
            return Ok(p);
        }
        i = i + 1;
    }
    Err(PluginError::PluginNotFound { plugin: wanted })
}


/// The words of `s`: its longest runs of characters that are not
/// whitespace, in order.
pub open spec fn words(s: Seq<char>) -> Seq<Seq<char>>
    decreases s.len(),
{
    if s.len() == 0 {
        Seq::empty()
    } else {
        let w = words(s.drop_last());
        let c = s.last();
        if is_white(c) {
            w
        } else if s.len() > 1 && !is_white(s[s.len() - 2]) {
            w.update(w.len() - 1, w.last().push(c))
        } else {
            w.push(seq![c])
        }
    }
}

proof fn lemma_words_nonempty(s: Seq<char>)
    requires
        s.len() > 0,
        !is_white(s.last()),
    ensures
        words(s).len() > 0,
    decreases s.len(),
{
    if s.len() > 1 && !is_white(s[s.len() - 2]) {
        assert(s.drop_last().last() == s[s.len() - 2]);
        lemma_words_nonempty(s.drop_last());
    }
}

/// The words of `text`, split at whitespace.
pub fn split_words(text: &str) -> (r: Vec<String>)
    ensures
        r@.map_values(|w: String| w@) == words(text@),
{
    let ghost s = text@;
    let cs = chars_of(text);
    let n = cs.len();
    let mut ws: Vec<String> = Vec::new();
    let mut start: usize = 0;
    let mut in_word = false;
    let mut i: usize = 0;
    while i < n
        invariant
            s == text@,
            cs@ == s,
            n == s.len(),
            i <= n,
            start <= i,
            in_word ==> i > 0 && !is_white(s[i - 1]),
            !in_word ==> i == 0 || is_white(s[i - 1]),
            words(s.subrange(0, i as int)) == if in_word {
                ws@.map_values(|w: String| w@).push(s.subrange(start as int, i as int))
            } else {
                ws@.map_values(|w: String| w@)
            },
        decreases n - i,
    {
        let ghost prev = s.subrange(0, i as int);
        let ghost next = s.subrange(0, i + 1);
        assert(next.drop_last() =~= prev);
        assert(next.last() == s[i as int]);
        if char_is_white(cs[i]) {
            if in_word {
                let word = String::from_str(text.substring_char(start, i));
                ws.push(word);
                assert(ws@.map_values(|w: String| w@) =~= words(prev));
                in_word = false;
            }
        } else {
            if in_word {
                assert(next[i - 1] == s[i - 1]);
                assert(s.subrange(start as int, i + 1) =~= s.subrange(start as int, i as int).push(
                    s[i as int],
                ));
                assert(words(next) =~= ws@.map_values(|w: String| w@).push(
                    s.subrange(start as int, i + 1),
                ));
            } else {
                start = i;
                in_word = true;
                assert(s.subrange(start as int, i + 1) =~= seq![s[i as int]]);
                assert(words(next) =~= ws@.map_values(|w: String| w@).push(
                    s.subrange(start as int, i + 1),
                ));
            }
        }
        i = i + 1;
    }
    if in_word {
        let word = String::from_str(text.substring_char(start, n));
        ws.push(word);
    }
    assert(s.subrange(0, n as int) =~= s);
    assert(ws@.map_values(|w: String| w@) =~= words(s));
    ws
}

/// The program and arguments that a plugin's command line starts: the
/// first word, then `extra`, then the remaining words. `None` when the
/// command line has no word.
pub fn command_line(exec: &str, extra: Vec<String>) -> (r: Option<(String, Vec<String>)>)
    ensures
        match r {
            None => words(exec@).len() == 0,
            Some((program, args)) => {
                &&& words(exec@).len() > 0
                &&& program@ == words(exec@)[0]
                &&& args@.map_values(|a: String| a@) == extra@.map_values(|a: String| a@) + words(
                    exec@,
                ).drop_first()
            },
        },
{
    let ws = split_words(exec);
    if ws.len() == 0 {
        return None;
    }
    let ghost wv = ws@.map_values(|w: String| w@);
    let mut args = extra;
    let ghost ev = args@.map_values(|a: String| a@);
    let mut i: usize = 1;
    while i < ws.len()
        invariant
            wv == ws@.map_values(|w: String| w@),
            1 <= i <= ws.len(),
            args@.map_values(|a: String| a@) == ev + wv.subrange(1, i as int),
        decreases ws.len() - i,
    {
        let ghost before = args@;
        args.push(ws[i].clone());
        assert(args@.map_values(|a: String| a@) =~= before.map_values(|a: String| a@).push(wv[i as int]));
        assert(wv.subrange(1, i + 1) =~= wv.subrange(1, i as int).push(wv[i as int]));
        i = i + 1;
    }
    assert(wv.subrange(1, ws.len() as int) =~= wv.drop_first());
    Some((ws[0].clone(), args))
}

} // verus!

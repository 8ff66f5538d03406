//! What the configuration file may set, as plain values.

use vstd::prelude::*;

verus! {

/// One key binding of the configuration: the name of an action and the key
/// that calls it.
pub struct ConfigKeybind {
    pub action: String,
    pub key: String,
}

/// One named cycle of output encodings.
pub struct ConfigOutput {
    pub name: String,
    pub order: Vec<String>,
}

/// The configuration: key bindings that replace the built-in ones, and named
/// cycles of output encodings. Where a name occurs twice, the first
/// occurrence of a cycle and the last occurrence of a key binding count.
pub struct Config {
    pub keybinds: Option<Vec<ConfigKeybind>>,
    pub outputs: Option<Vec<ConfigOutput>>,
}

/// The place of the first cycle called `name` at or after `from`, or the
/// number of cycles where none is called so.
pub open spec fn find_output_from(outputs: Seq<ConfigOutput>, name: Seq<char>, from: int) -> int
    decreases outputs.len() - from,
{
    if from < 0 || from >= outputs.len() {
        outputs.len() as int
    } else if outputs[from].name@ == name {
        from
    } else {
        find_output_from(outputs, name, from + 1)
    }
}

/// The place of the first cycle called `name`, or the number of cycles
/// where none is called so.
pub open spec fn find_output(outputs: Seq<ConfigOutput>, name: Seq<char>) -> int {
    find_output_from(outputs, name, 0)
}

impl Config {
    /// A configuration that sets nothing.
    pub fn empty() -> (config: Config)
        ensures
            config.keybinds is None,
            config.outputs is None,
    {
        Config { keybinds: None, outputs: None }
    }

    /// The place of the cycle called `name` among the cycles of the
    /// configuration, if it names one.
    #[verifier::loop_isolation(false)]
    pub fn find_output(&self, name: &str) -> (found: Option<usize>)
        ensures
            match self.outputs {
                None => found is None,
                Some(outputs) => match found {
                    Some(i) => i < outputs.len() && i == find_output(outputs@, name@),
                    None => find_output(outputs@, name@) == outputs.len(),
                },
            },
    {
        match &self.outputs {
            None => None,
            Some(outputs) => {
                let mut i: usize = 0;
                while i < outputs.len()
                    invariant
                        i <= outputs.len(),
                        find_output(outputs@, name@) == find_output_from(
                            outputs@,
                            name@,
                            i as int,
                        ),
                    decreases outputs.len() - i,
                {
                    if crate::text::str_eq(outputs[i].name.as_str(), name) {
                        return Some(i);
                    }
                    i += 1;
                }
                None
            },
        }
    }
}

} // verus!

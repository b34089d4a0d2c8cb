use vstd::prelude::*;

verus! {

/// How urgent one diagnostic message is: where the surrounding program routes
/// it once it is recorded.
#[derive(Clone, Copy, Debug, PartialEq, Eq)]
pub enum DiagLevel {
    /// Progress chatter.
    Info,
    /// A failure report.
    Error,
}

/// An explicit diagnostics capability, handed to each component instead of a
/// process-wide flag. Messages are recorded only when verbose output was
/// asked for: otherwise even failures stay silent by design — a widget that
/// was not embedded is still a usable window. The surrounding program decides
/// where the recorded messages go, by their level.
#[derive(Debug)]
pub struct Diagnostics {
    pub verbose: bool,
    pub messages: Vec<(DiagLevel, String)>,
}

impl Diagnostics {
    /// The recorded messages: each level with its text.
    pub open spec fn spec_messages(self) -> Seq<(DiagLevel, Seq<char>)> {
        self.messages@.map_values(|m: (DiagLevel, String)| (m.0, m.1@))
    }

    pub fn new(verbose: bool) -> (d: Diagnostics)
        ensures
            d.verbose == verbose,
            d.spec_messages() == Seq::<(DiagLevel, Seq<char>)>::empty(),
    {
        let d = Diagnostics { verbose, messages: Vec::new() };
        proof {
            assert(d.spec_messages() =~= Seq::<(DiagLevel, Seq<char>)>::empty());
        }
        d
    }

    /// Records the message under verbose output and drops it otherwise.
    pub fn emit(&mut self, level: DiagLevel, message: String)
        ensures
            final(self).verbose == old(self).verbose,
            final(self).spec_messages() == (if old(self).verbose {
                old(self).spec_messages().push((level, message@))
            } else {
                old(self).spec_messages()
            }),
    {
        if self.verbose {
            self.messages.push((level, message));
            proof {
                assert(self.spec_messages() =~= old(self).spec_messages().push((level, message@)));
            }
        }
    }
}

} // verus!

use vstd::prelude::*;

use crate::errors::CommandError;

verus! {

/// The operations this library knows how to dispatch. Handlers are a
/// closed set of tagged variants, so each command's input and output
/// shape is checked statically.
#[derive(Clone, Copy, Debug, PartialEq, Eq, Structural)]
pub enum CommandKind {
    Greet,
    GetSystemInfo,
    IncrementCounter,
    GetCounter,
    ResetCounter,
    GetTimestamp,
    GetMockUsbDevices,
}

/// What a sequence of (name, handler) entries resolves `n` to: the
/// handler of the first entry whose name is `n`, if any.
pub open spec fn resolve_in(s: Seq<(Seq<char>, CommandKind)>, n: Seq<char>) -> Option<CommandKind>
    decreases s.len(),
{
    if s.len() == 0 {
        None
    } else if s[0].0 == n {
        Some(s[0].1)
    } else {
        resolve_in(s.drop_first(), n)
    }
}

/// The mapping from command name to handler. It is grown by `register`
/// before serving starts and only read afterwards; names are never
/// overwritten, so the first registration of a name wins.
pub struct CommandRegistry {
    entries: Vec<(String, CommandKind)>,
}

impl View for CommandRegistry {
    type V = Seq<(Seq<char>, CommandKind)>;

    closed spec fn view(&self) -> Seq<(Seq<char>, CommandKind)> {
        self.entries@.map(|i: int, p: (String, CommandKind)| (p.0@, p.1))
    }
}

impl CommandRegistry {
    /// An empty registry: no name resolves.
    pub fn new() -> (r: CommandRegistry)
        ensures
            r@ == Seq::<(Seq<char>, CommandKind)>::empty(),
    {
        CommandRegistry { entries: Vec::new() }
    }

    /// Adds `(name, kind)` unless `name` is already registered; a
    /// duplicate is rejected and leaves the registry exactly as it was.
    pub fn register(&mut self, name: String, kind: CommandKind) -> (r: Result<
        (),
        CommandError,
    >)
        ensures
            resolve_in(old(self)@, name@) is Some ==> r == Err::<(), CommandError>(
                CommandError::DuplicateCommand,
            ) && final(self)@ == old(self)@,
            resolve_in(old(self)@, name@) is None ==> r == Ok::<(), CommandError>(())
                && final(self)@ == old(self)@.push((name@, kind)),
    {
        match self.resolve(name.as_str()) {
            Some(_) => Err(CommandError::DuplicateCommand),
            None => {
                self.entries.push((name, kind));
                proof {
                    assert(final(self)@ =~= old(self)@.push((name@, kind)));
                }
                Ok(())
            },
        }
    }

    /// Looks `name` up; `None` exactly when no entry carries it.
    pub fn resolve(&self, name: &str) -> (r: Option<CommandKind>)
        ensures
            r == resolve_in(self@, name@),
    {
        let key = String::from_str(name);
        let n = self.entries.len();
        let mut i: usize = 0;
        proof {
            assert(self@.skip(0) =~= self@);
        }
        while i < n
            invariant
                0 <= i <= n,
                n == self.entries@.len(),
                key@ == name@,
                resolve_in(self@.skip(i as int), name@) == resolve_in(self@, name@),
            decreases n - i,
        {
            proof {
                lemma_resolve_step(self@, i as int);
            }
            if self.entries[i].0 == key {
                return Some(self.entries[i].1);
            }
            i = i + 1;
        }
        None
    }
}

/// Stepping one entry forward in a resolution scan: the suffix starting
/// at `i` resolves either at entry `i` itself or in the rest.
proof fn lemma_resolve_step(s: Seq<(Seq<char>, CommandKind)>, i: int)
    requires
        0 <= i < s.len(),
    ensures
        s.skip(i).len() == s.len() - i,
        s.skip(i)[0] == s[i],
        s.skip(i).drop_first() =~= s.skip(i + 1),
{
    assert(s.skip(i).drop_first() =~= s.skip(i + 1));
}

/// Appending an entry never disturbs an existing resolution: a name
/// that already resolved keeps resolving to the same handler, and a
/// fresh name resolves to the appended handler.
pub proof fn lemma_resolve_push(
    s: Seq<(Seq<char>, CommandKind)>,
    p: (Seq<char>, CommandKind),
    n: Seq<char>,
)
    ensures
        resolve_in(s.push(p), n) == (if resolve_in(s, n) is Some {
            resolve_in(s, n)
        } else if p.0 == n {
            Some(p.1)
        } else {
            None::<CommandKind>
        }),
    decreases s.len(),
{
    if s.len() == 0 {
        assert(s.push(p)[0] == p);
        assert(s.push(p).drop_first() =~= Seq::<(Seq<char>, CommandKind)>::empty());
        assert(resolve_in(s.push(p).drop_first(), n) == None::<CommandKind>);
        assert(resolve_in(s, n) == None::<CommandKind>);
        if p.0 == n {
            assert(resolve_in(s.push(p), n) == Some(p.1));
        } else {
            assert(resolve_in(s.push(p), n) == None::<CommandKind>);
        }
    } else {
        assert(s.push(p)[0] == s[0]);
        assert(s.push(p).drop_first() =~= s.drop_first().push(p));
        lemma_resolve_push(s.drop_first(), p, n);
        if s[0].0 == n {
            assert(resolve_in(s.push(p), n) == Some(s[0].1));
            assert(resolve_in(s, n) == Some(s[0].1));
        } else {
            assert(resolve_in(s.push(p), n) == resolve_in(s.drop_first().push(p), n));
            assert(resolve_in(s, n) == resolve_in(s.drop_first(), n));
        }
    }
}

/// The first registration of a name wins: once `name` resolves to
/// `kind`, registering anything further under `name` is rejected and,
/// because a rejected registration leaves the registry unchanged (see
/// `register`), `name` goes on resolving to `kind`.
pub proof fn lemma_first_registration_wins(
    s: Seq<(Seq<char>, CommandKind)>,
    name: Seq<char>,
    kind: CommandKind,
)
    requires
        resolve_in(s, name) is None,
    ensures
        resolve_in(s.push((name, kind)), name) == Some(kind),
        forall|other: CommandKind|
            resolve_in(s.push((name, kind)).push((name, other)), name) == Some(kind),
{
    lemma_resolve_push(s, (name, kind), name);
    assert forall|other: CommandKind|
        resolve_in(s.push((name, kind)).push((name, other)), name) == Some(kind) by {
        lemma_resolve_push(s.push((name, kind)), (name, other), name);
    }
}

} // verus!

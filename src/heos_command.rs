//! Fluent construction of a command and its rendering as a wire line.

use vstd::prelude::*;
use crate::constants::{CMD_POSTFIX, CMD_PREFIX};
use crate::heos_attributes::{attr_pairs, join_attributes, query_string};

verus! {

/// What a command holds: its group, its name and its attributes in order.
pub ghost struct CommandModel {
    pub group: Option<Seq<char>>,
    pub cmd: Option<Seq<char>>,
    pub attrs: Seq<(Seq<char>, Seq<char>)>,
}

/// The wire line `heos://<group>/<cmd><query>\r\n`.
pub open spec fn command_line(group: Seq<char>, cmd: Seq<char>, attributes: Seq<char>) -> Seq<char> {
    CMD_PREFIX@ + group + seq!['/'] + cmd + attributes + CMD_POSTFIX@
}

/// The wire line of a command whose group and name are set.
pub open spec fn render(m: CommandModel) -> Seq<char> {
    command_line(m.group->Some_0, m.cmd->Some_0, query_string(m.attrs))
}

/// A rendered command starts with `heos://<group>/<cmd>`, ends with `\r\n`,
/// and holds a `?` exactly when it carries attributes, for every attribute
/// list, given that group and name hold no `?` themselves.
pub proof fn lemma_render_shape(
    group: Seq<char>,
    cmd: Seq<char>,
    attrs: Seq<(Seq<char>, Seq<char>)>,
)
    requires
        !group.contains('?'),
        !cmd.contains('?'),
    ensures
        ({
            let line = render(CommandModel { group: Some(group), cmd: Some(cmd), attrs });
            let head = seq!['h', 'e', 'o', 's', ':', '/', '/'] + group + seq!['/'] + cmd;
            &&& line.len() >= head.len() + 2
            &&& line.take(head.len() as int) == head
            &&& line.skip(line.len() - 2) == seq!['\r', '\n']
            &&& line.contains('?') <==> attrs.len() > 0
        }),
{
    reveal_strlit("heos://");
    reveal_strlit("\r\n");
    let q = query_string(attrs);
    let line = render(CommandModel { group: Some(group), cmd: Some(cmd), attrs });
    let head = seq!['h', 'e', 'o', 's', ':', '/', '/'] + group + seq!['/'] + cmd;
    assert(CMD_PREFIX@ =~= seq!['h', 'e', 'o', 's', ':', '/', '/']);
    assert(CMD_POSTFIX@ =~= seq!['\r', '\n']);
    assert(line =~= head + q + seq!['\r', '\n']);
    assert(line.take(head.len() as int) =~= head);
    assert(line.skip(line.len() - 2) =~= seq!['\r', '\n']);
    if attrs.len() > 0 {
        assert(line[head.len() as int] == '?');
    } else {
        assert(q.len() == 0);
        if line.contains('?') {
            let i = choose|i: int| 0 <= i < line.len() && line[i] == '?';
            if i < 7 {
                assert(line[i] == CMD_PREFIX@[i]);
            } else if i < 7 + group.len() {
                assert(line[i] == group[i - 7]);
            } else if i == 7 + group.len() {
            } else if i < 8 + group.len() + cmd.len() {
                assert(line[i] == cmd[i - 8 - group.len()]);
            } else {
            }
        }
    }
}

/// A command under construction: group, name and attributes, each optional
/// until rendering.
#[derive(Default, Debug)]
pub struct HeosCommand<'a> {
    group: Option<&'a str>,
    cmd: Option<&'a str>,
    attrs: Option<Vec<(&'a str, &'a str)>>,
}

impl<'a> View for HeosCommand<'a> {
    type V = CommandModel;

    closed spec fn view(&self) -> CommandModel {
        CommandModel {
            group: match self.group {
                Some(g) => Some(g@),
                None => None,
            },
            cmd: match self.cmd {
                Some(c) => Some(c@),
                None => None,
            },
            attrs: match self.attrs {
                Some(v) => attr_pairs(v@),
                None => Seq::empty(),
            },
        }
    }
}

impl<'a> Clone for HeosCommand<'a> {
    fn clone(&self) -> (r: Self)
        ensures
            r@ == self@,
    {
        let attrs = match &self.attrs {
            Some(v) => {
                let mut w: Vec<(&'a str, &'a str)> = Vec::new();
                let mut i: usize = 0;
                while i < v.len()
                    invariant
                        i <= v@.len(),
                        w@ == v@.take(i as int),
                    decreases v@.len() - i,
                {
                    w.push(v[i]);
                    i += 1;
                    proof {
                        assert(w@ =~= v@.take(i as int));
                    }
                }
                proof {
                    assert(w@ =~= v@);
                }
                Some(w)
            },
            None => None,
        };
        HeosCommand { group: self.group, cmd: self.cmd, attrs }
    }
}

impl<'a> HeosCommand<'a> {
    /// A command with nothing set.
    pub fn new() -> (r: Self)
        ensures
            r@ == (CommandModel { group: None, cmd: None, attrs: Seq::empty() }),
    {
        Self { group: None, cmd: None, attrs: None }
    }

    /// Sets the command group (`player`, `group`, ...).
    pub fn group(self, cmd_group_string: &'a str) -> (r: Self)
        ensures
            r@ == (CommandModel { group: Some(cmd_group_string@), ..self@ }),
    {
        let mut c = self;
        c.group = Some(cmd_group_string);
        c
    }

    /// Sets the command name.
    pub fn cmd(self, cmd_string: &'a str) -> (r: Self)
        ensures
            r@ == (CommandModel { cmd: Some(cmd_string@), ..self@ }),
    {
        let mut c = self;
        c.cmd = Some(cmd_string);
        c
    }

    /// Replaces the attributes.
    pub fn attrs(self, attrs: Vec<(&'a str, &'a str)>) -> (r: Self)
        ensures
            r@ == (CommandModel { attrs: attr_pairs(attrs@), ..self@ }),
    {
        let mut c = self;
        c.attrs = Some(attrs);
        c
    }

    /// Appends one attribute after those already set.
    pub fn attr(self, key: &'a str, value: &'a str) -> (r: Self)
        ensures
            r@ == (CommandModel { attrs: self@.attrs.push((key@, value@)), ..self@ }),
    {
        let ghost before = self@;
        let mut c = self;
        match c.attrs {
            Some(ref mut v) => {
                let ghost old_v = v@;
                v.push((key, value));
                proof {
                    assert(attr_pairs(v@) =~= attr_pairs(old_v).push((key@, value@)));
                }
            },
            None => {
                let v = vec![(key, value)];
                proof {
                    assert(attr_pairs(v@) =~= Seq::<(Seq<char>, Seq<char>)>::empty().push(
                        (key@, value@),
                    ));
                }
                c.attrs = Some(v);
            },
        }
        proof {
            assert(c@.attrs =~= before.attrs.push((key@, value@)));
        }
        c
    }

    /// Whether group and name are both set, so that the command renders.
    pub fn is_complete(&self) -> (r: bool)
        ensures
            r == (self@.group is Some && self@.cmd is Some),
    {
        self.group.is_some() && self.cmd.is_some()
    }

    /// The wire line of this command.
    pub fn to_string(&self) -> (r: String)
        requires
            self@.group is Some,
            self@.cmd is Some,
        ensures
            r@ == render(self@),
    {
        let group = match self.group {
            Some(g) => g,
            None => "",
        };
        let cmd = match self.cmd {
            Some(c) => c,
            None => "",
        };
        let attributes = format_attributes(self.attrs.as_ref());
        create_command(group, cmd, attributes.as_str())
    }
}

/// The query suffix of optional attributes: empty when absent or empty.
pub fn format_attributes(attrs: Option<&Vec<(&str, &str)>>) -> (r: String)
    ensures
        r@ == query_string(
            match attrs {
                Some(v) => attr_pairs(v@),
                None => Seq::empty(),
            },
        ),
{
    match attrs {
        Some(v) => join_attributes(v),
        None => String::new(),
    }
}

/// Assembles a wire line from its group, name and rendered query suffix.
pub fn create_command(command_group: &str, command_string: &str, attributes_string: &str) -> (r:
    String)
    ensures
        r@ == command_line(command_group@, command_string@, attributes_string@),
{
    let mut out = String::new();
    out.append(CMD_PREFIX);
    out.append(command_group);
    out.append("/");
    out.append(command_string);
    out.append(attributes_string);
    out.append(CMD_POSTFIX);
    proof {
        reveal_strlit("/");
        assert(out@ =~= command_line(command_group@, command_string@, attributes_string@));
    }
    out
}

} // verus!

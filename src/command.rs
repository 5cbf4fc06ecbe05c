//! Construction of the `avrdude` invocation that flashes a firmware image.

use vstd::prelude::*;
use vstd::string::*;

use crate::board::BoardSpec;
use crate::port::PortDescriptor;

verus! {

/// The flashing tool that is invoked.
pub const FLASH_TOOL: &'static str = "avrdude";

/// The invocation of the flashing tool for one flash attempt.
pub struct FlashCommand {
    /// The executable.
    pub program: String,
    /// Its arguments, in order.
    pub args: Vec<String>,
    /// A human-readable form of the whole command, for display only.
    pub rendering: String,
}

/// The arguments that flash `file` through `port` with the given programmer,
/// part and erase setting.
pub open spec fn flash_args(
    programmer: Seq<char>,
    partno: Seq<char>,
    erase: bool,
    port: Seq<char>,
    file: Seq<char>,
) -> Seq<Seq<char>> {
    let base = seq![
        "-c"@,
        programmer,
        "-p"@,
        partno,
        "-P"@,
        port,
        "-D"@,
        "-U"@,
        "flash:w:"@ + file,
    ];
    if erase {
        base.push("-e"@)
    } else {
        base
    }
}

/// The arguments for a board profile, a port and a file.
pub open spec fn args_for(
    spec: BoardSpec,
    port: PortDescriptor,
    file: Seq<char>,
) -> Seq<Seq<char>> {
    flash_args(spec.programmer@, spec.partno@, spec.do_chip_erase, port.port_name@, file)
}

/// One word in double quotes.
pub open spec fn quoted(word: Seq<char>) -> Seq<char> {
    "\""@ + word + "\""@
}

/// Each argument quoted, each preceded by a space.
pub open spec fn rendered_args(args: Seq<Seq<char>>) -> Seq<char>
    decreases args.len(),
{
    if args.len() == 0 {
        Seq::empty()
    } else {
        rendered_args(args.drop_last()) + " "@ + quoted(args.last())
    }
}

/// The display form of a command: `CMD: "prog" "arg1" "arg2" ...`.
pub open spec fn render_command(program: Seq<char>, args: Seq<Seq<char>>) -> Seq<char> {
    "CMD: "@ + quoted(program) + rendered_args(args)
}

/// The text of each string in a vector.
pub open spec fn texts(v: Seq<String>) -> Seq<Seq<char>> {
    v.map_values(|s: String| s@)
}

/// `c` invokes the flashing tool with `args`, and its rendering shows them.
pub open spec fn is_flash_command(c: FlashCommand, args: Seq<Seq<char>>) -> bool {
    &&& c.program@ == FLASH_TOOL@
    &&& texts(c.args@) == args
    &&& c.rendering@ == render_command(FLASH_TOOL@, args)
}

/// `c` is the command that flashes `file` through `port` with profile `spec`.
pub open spec fn is_command_for(
    c: FlashCommand,
    spec: BoardSpec,
    port: PortDescriptor,
    file: Seq<char>,
) -> bool {
    is_flash_command(c, args_for(spec, port, file))
}

/// Appends ` "word"` to `out`.
fn push_quoted(out: &mut String, word: &str)
    ensures
        final(out)@ == old(out)@ + " "@ + quoted(word@),
{
    out.append(" \"");
    out.append(word);
    out.append("\"");
    proof {
        reveal_strlit(" \"");
        reveal_strlit(" ");
        reveal_strlit("\"");
    }
    assert(final(out)@ =~= old(out)@ + " "@ + quoted(word@));
}

/// Renders `program` and `args` as `CMD: "program" "arg" ...`.
pub fn render(program: &str, args: &Vec<String>) -> (r: String)
    ensures
        r@ == render_command(program@, texts(args@)),
{
    let mut out = String::from_str("CMD: \"");
    out.append(program);
    out.append("\"");
    proof {
        reveal_strlit("CMD: \"");
        reveal_strlit("CMD: ");
        reveal_strlit("\"");
        assert(out@ =~= "CMD: "@ + quoted(program@) + rendered_args(texts(args@).take(0)));
    }
    let mut i: usize = 0;
    while i < args.len()
        invariant
            i <= args@.len(),
            out@ == "CMD: "@ + quoted(program@) + rendered_args(texts(args@).take(i as int)),
        decreases args@.len() - i,
    {
        let ghost before = out@;
        push_quoted(&mut out, args[i].as_str());
        proof {
            let t = texts(args@);
            assert(t.take(i as int + 1).drop_last() =~= t.take(i as int));
            assert(t.take(i as int + 1).last() == args@[i as int]@);
            assert(out@ =~= "CMD: "@ + quoted(program@) + rendered_args(t.take(i as int + 1)));
        }
        i = i + 1;
    }
    proof {
        assert(texts(args@).take(args@.len() as int) =~= texts(args@));
    }
    out
}

impl FlashCommand {
    /// Builds the `avrdude` command that writes `file` to the board behind
    /// `port`, as described by `spec`. The chip erase flag, when the profile
    /// asks for it, comes last.
    pub fn build(spec: BoardSpec, port: &PortDescriptor, file: &str) -> (r: FlashCommand)
        ensures
            is_command_for(r, spec, *port, file@),
    {
        let mut args: Vec<String> = Vec::new();
        args.push(String::from_str("-c"));
        args.push(String::from_str(spec.programmer));
        args.push(String::from_str("-p"));
        args.push(String::from_str(spec.partno));
        args.push(String::from_str("-P"));
        args.push(port.port_name.clone());
        args.push(String::from_str("-D"));
        args.push(String::from_str("-U"));
        args.push(String::from_str("flash:w:").concat(file));
        if spec.do_chip_erase {
            args.push(String::from_str("-e"));
        }
        assert(texts(args@) =~= args_for(spec, *port, file@));
        let rendering = render(FLASH_TOOL, &args);
        FlashCommand { program: String::from_str(FLASH_TOOL), args, rendering }
    }
}

/// Building is deterministic: two commands built from the same profile, port
/// and file have the same executable, the same arguments and the same
/// rendering.
pub proof fn lemma_build_deterministic(
    spec: BoardSpec,
    port: PortDescriptor,
    file: Seq<char>,
    first: FlashCommand,
    second: FlashCommand,
)
    requires
        is_command_for(first, spec, port, file),
        is_command_for(second, spec, port, file),
    ensures
        first.program@ == second.program@,
        texts(first.args@) == texts(second.args@),
        first.rendering@ == second.rendering@,
{
}

/// Where the profile erases, the erase flag is the last argument and follows
/// the arguments of the same profile without erase. Where it does not, the
/// write flag is last and the erase flag appears nowhere but, possibly, as a
/// value given by the profile or the port.
pub proof fn lemma_erase_flag_position(spec: BoardSpec, port: PortDescriptor, file: Seq<char>)
    ensures
        spec.do_chip_erase ==> {
            let a = args_for(spec, port, file);
            &&& a.len() == 10
            &&& a.last() == "-e"@
            &&& a.drop_last() == flash_args(spec.programmer@, spec.partno@, false, port.port_name@, file)
        },
        !spec.do_chip_erase ==> {
            let a = args_for(spec, port, file);
            &&& a.len() == 9
            &&& a.last() == "flash:w:"@ + file
            &&& forall|i: int| 0 <= i < a.len() && a[i] == "-e"@ ==> i == 1 || i == 3 || i == 5
        },
{
    reveal_strlit("-e");
    reveal_strlit("-c");
    reveal_strlit("-p");
    reveal_strlit("-P");
    reveal_strlit("-D");
    reveal_strlit("-U");
    reveal_strlit("flash:w:");
    let a = args_for(spec, port, file);
    if spec.do_chip_erase {
        assert(a.drop_last() =~= flash_args(spec.programmer@, spec.partno@, false, port.port_name@, file));
    } else {
        assert(a[8][0] == 'f');
        assert(a[8] != "-e"@);
        assert(a[0][1] == 'c');
        assert(a[2][1] == 'p');
        assert(a[4][1] == 'P');
        assert(a[6][1] == 'D');
        assert(a[7][1] == 'U');
    }
}

} // verus!

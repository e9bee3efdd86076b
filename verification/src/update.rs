use vstd::prelude::*;
use crate::command::{new_command, CommandView, NixCommand};
use crate::eh_config::CommandConfig;
use crate::eh_config::CommandConfigView;
use crate::eh_error::EhError;
use crate::json::{json_get, Json};
use crate::nix_config::{with_settings, ApplyCommandConfig};
use crate::order::{insert_distinct, strictly_sorted, views};

verus! {

broadcast use vstd::string::group_string_axioms;

/// `locks.nodes.root.inputs` of a flake's metadata, if present.
pub open spec fn inputs_node(doc: Json) -> Option<Json> {
    match json_get(doc, "locks"@) {
        Some(locks) => match json_get(locks, "nodes"@) {
            Some(nodes) => match json_get(nodes, "root"@) {
                Some(root) => json_get(root, "inputs"@),
                None => None,
            },
            None => None,
        },
        None => None,
    }
}

/// The names of an object's members, in order.
pub open spec fn member_names(members: Seq<(String, Json)>) -> Seq<Seq<char>> {
    members.map_values(|e: (String, Json)| e.0@)
}

/// The names of the flake's inputs, each once and in ascending order, from
/// the metadata that `nix flake metadata --json` prints.
pub fn parse_flake_inputs(doc: &Json) -> (r: Result<Vec<String>, EhError>)
    ensures
        match inputs_node(*doc) {
            Some(Json::Object(m)) => r matches Ok(v) && strictly_sorted(views(v@)) && (forall|
                y: Seq<char>,
            | views(v@).contains(y) <==> member_names(m@).contains(y)),
            _ => r == Err::<Vec<String>, EhError>(EhError::NoFlakeInputs),
        },
{
    let locks = match doc.get("locks") {
        Some(l) => l,
        None => return Err(EhError::NoFlakeInputs),
    };
    let nodes = match locks.get("nodes") {
        Some(n) => n,
        None => return Err(EhError::NoFlakeInputs),
    };
    let root = match nodes.get("root") {
        Some(r) => r,
        None => return Err(EhError::NoFlakeInputs),
    };
    let inputs = match root.get("inputs") {
        Some(i) => i,
        None => return Err(EhError::NoFlakeInputs),
    };
    let members = match inputs.as_object() {
        Some(m) => m,
        None => return Err(EhError::NoFlakeInputs),
    };
    let mut names: Vec<String> = Vec::new();
    assert(views(names@) =~= Seq::<Seq<char>>::empty());
    for i in 0..members.len()
        invariant
            strictly_sorted(views(names@)),
            forall|y: Seq<char>|
                views(names@).contains(y) <==> member_names(members@.take(i as int)).contains(y),
    {
        insert_distinct(&mut names, members[i].0.clone());
        proof {
            let before = member_names(members@.take(i as int));
            let after = member_names(members@.take(i + 1));
            assert(after =~= before.push(members@[i as int].0@));
            assert forall|y: Seq<char>| views(names@).contains(y) <==> after.contains(y) by {
                if after.contains(y) {
                    let k = choose|k: int| 0 <= k < after.len() && after[k] == y;
                    if k < before.len() {
                        assert(before[k] == y);
                    }
                }
                if before.contains(y) {
                    let k = choose|k: int| 0 <= k < before.len() && before[k] == y;
                    assert(after[k] == y);
                }
                if y == members@[i as int].0@ {
                    assert(after[before.len() as int] == y);
                }
            }
        }
    }
    assert(members@.take(members@.len() as int) =~= members@);
    Ok(names)
}

/// `nix flake metadata --json`, without build logs.
pub open spec fn metadata_command_view() -> CommandView {
    CommandView { args: seq!["metadata"@, "--json"@], print_build_logs: false, ..new_command("flake"@) }
}

/// The command that prints the flake's metadata.
pub fn metadata_command() -> (r: NixCommand)
    ensures
        r@ == metadata_command_view(),
{
    let c = NixCommand::new("flake").arg("metadata").arg("--json").print_build_logs(false);
    assert(c@.args =~= seq!["metadata"@, "--json"@]);
    c
}

/// The inputs the user picked, by their positions among `inputs`.
pub open spec fn picked_names(inputs: Seq<Seq<char>>, picked: Seq<usize>) -> Seq<Seq<char>> {
    picked.map_values(|i: usize| inputs[i as int])
}

/// The inputs picked in the selection dialog; picking none cancels.
pub fn prompt_input_selection(inputs: &[String], picked: &[usize]) -> (r: Result<Vec<String>, EhError>)
    requires
        forall|k: int| 0 <= k < picked.len() ==> #[trigger] picked[k] < inputs.len(),
    ensures
        picked.len() == 0 ==> r == Err::<Vec<String>, EhError>(EhError::UpdateCancelled),
        picked.len() > 0 ==> (r matches Ok(v) && views(v@) == picked_names(views(inputs@), picked@)),
{
    if picked.len() == 0 {
        return Err(EhError::UpdateCancelled);
    }
    let mut out: Vec<String> = Vec::new();
    for k in 0..picked.len()
        invariant
            forall|m: int| 0 <= m < picked.len() ==> #[trigger] picked[m] < inputs.len(),
            views(out@) == picked_names(views(inputs@), picked@.take(k as int)),
    {
        out.push(inputs[picked[k]].clone());
        assert(picked_names(views(inputs@), picked@.take(k + 1)) =~= picked_names(
            views(inputs@),
            picked@.take(k as int),
        ).push(views(inputs@)[picked@[k as int] as int]));
        assert(views(out@) =~= picked_names(views(inputs@), picked@.take(k + 1)));
    }
    assert(picked@.take(picked@.len() as int) =~= picked@);
    Ok(out)
}

/// `--update-input NAME` for each name, in order.
pub open spec fn update_args(names: Seq<Seq<char>>) -> Seq<Seq<char>>
    decreases names.len(),
{
    if names.len() == 0 {
        seq![]
    } else {
        update_args(names.drop_last()) + seq!["--update-input"@, names.last()]
    }
}

/// `nix flake lock` with the settings applied, updating `names`.
pub open spec fn update_command_view(names: Seq<Seq<char>>, cfg: CommandConfigView) -> CommandView {
    let base = with_settings(CommandView { args: seq!["lock"@], ..new_command("flake"@) }, cfg);
    CommandView { args: base.args + update_args(names), ..base }
}

/// The command that updates the inputs `names`.
pub fn update_command(names: &[String], cfg: &CommandConfig) -> (r: NixCommand)
    ensures
        r@ == update_command_view(views(names@), cfg@),
{
    let mut cmd = NixCommand::new("flake").arg("lock").apply_config(cfg);
    let ghost base = cmd@;
    assert(base.args =~= seq!["lock"@]);
    for i in 0..names.len()
        invariant
            cmd@ == (CommandView { args: base.args + update_args(views(names@).take(i as int)), ..base }),
    {
        cmd = cmd.arg("--update-input").arg(names[i].as_str());
        proof {
            let t = views(names@).take(i + 1);
            assert(t.drop_last() =~= views(names@).take(i as int));
            assert(t.last() == names@[i as int]@);
            assert(update_args(t) == update_args(t.drop_last()) + seq!["--update-input"@, t.last()]);
            assert(cmd@.args =~= base.args + update_args(t));
        }
    }
    assert(views(names@).take(names@.len() as int) =~= views(names@));
    cmd
}

/// The `update` subcommand: the inputs named in `args`, or, without any,
/// those picked (by position) among the flake's `inputs`; and the command
/// that updates them.
pub fn handle_update(args: &[String], inputs: &[String], picked: &[usize], cfg: &CommandConfig) -> (r: Result<(NixCommand, Vec<String>), EhError>)
    requires
        forall|k: int| 0 <= k < picked.len() ==> #[trigger] picked[k] < inputs.len(),
    ensures
        args.len() > 0 ==> (r matches Ok((c, s)) && views(s@) == views(args@) && c@
            == update_command_view(views(args@), cfg@)),
        args.len() == 0 && inputs.len() == 0 ==> r == Err::<(NixCommand, Vec<String>), EhError>(
            EhError::NoFlakeInputs,
        ),
        args.len() == 0 && inputs.len() > 0 && picked.len() == 0 ==> r == Err::<
            (NixCommand, Vec<String>),
            EhError,
        >(EhError::UpdateCancelled),
        args.len() == 0 && inputs.len() > 0 && picked.len() > 0 ==> (r matches Ok((c, s)) && views(
            s@,
        ) == picked_names(views(inputs@), picked@) && c@ == update_command_view(
            picked_names(views(inputs@), picked@),
            cfg@,
        )),
{
    let selected = if args.len() == 0 {
        if inputs.len() == 0 {
            return Err(EhError::NoFlakeInputs);
        }
        prompt_input_selection(inputs, picked)?
    } else {
        crate::nix_command::clone_strings(args)
    };
    let cmd = update_command(selected.as_slice(), cfg);
    Ok((cmd, selected))
}

} // verus!

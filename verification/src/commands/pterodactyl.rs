use vstd::prelude::*;

use crate::commands::{CommandOption, CommandSpec, CommandView, EmbedSpec, OptionKind, OptionSpec, OptionValue, OptionView, Reply, ReplyView, SubOptionSpec, SubOptionView, cmd, command_views, e_color, e_description, e_field, e_footer, e_title, embed, embed_reply, get_option_str, opt, option_text, owned, text_reply, with_opt};
use crate::config::{Config, PterodactylConfig};
use crate::text::{dec_digits, push_str, push_u64, str_eq, string_from_chars};

verus! {

/// A subcommand that takes the server identifier.
pub open spec fn server_subcommand(name: Seq<char>, description: Seq<char>) -> OptionView {
    OptionView {
        sub_options: seq![
            SubOptionView {
                kind: OptionKind::String,
                name: "id"@,
                description: "Server identifier"@,
                required: true,
            },
        ],
        ..opt(OptionKind::SubCommand, name, description, false)
    }
}

/// The Pterodactyl command with its subcommands list, status, start, stop and restart.
pub open spec fn pterodactyl_commands() -> Seq<CommandView> {
    seq![
        with_opt(
            with_opt(
                with_opt(
                    with_opt(
                        with_opt(
                            cmd("ptero"@, "Manage Pterodactyl servers"@),
                            opt(OptionKind::SubCommand, "list"@, "List all servers"@, false),
                        ),
                        server_subcommand("status"@, "Get server status"@),
                    ),
                    server_subcommand("start"@, "Start a server"@),
                ),
                server_subcommand("stop"@, "Stop a server"@),
            ),
            server_subcommand("restart"@, "Restart a server"@),
        ),
    ]
}

fn server_subcommand_exec(name: &str, description: &str) -> (res: OptionSpec)
    ensures
        res@ == server_subcommand(name@, description@),
{
    let o = OptionSpec::new(OptionKind::SubCommand, name, description, false).add_sub_option(
        SubOptionSpec::new(OptionKind::String, "id", "Server identifier", true),
    );
    assert(o@.sub_options =~= server_subcommand(name@, description@).sub_options);
    o
}

/// The Pterodactyl command.
pub fn register() -> (res: Vec<CommandSpec>)
    ensures
        command_views(res@) == pterodactyl_commands(),
{
    let c = CommandSpec::new("ptero", "Manage Pterodactyl servers").add_option(
        OptionSpec::new(OptionKind::SubCommand, "list", "List all servers", false),
    ).add_option(server_subcommand_exec("status", "Get server status")).add_option(
        server_subcommand_exec("start", "Start a server"),
    ).add_option(server_subcommand_exec("stop", "Stop a server")).add_option(
        server_subcommand_exec("restart", "Restart a server"),
    );
    let mut v: Vec<CommandSpec> = Vec::new();
    v.push(c);
    assert(command_views(v@) =~= pterodactyl_commands());
    v
}

/// A power signal for a server.
#[derive(PartialEq, Eq, Structural, Clone, Copy, Debug)]
pub enum Signal {
    Start,
    Stop,
    Restart,
}

pub open spec fn signal_name(s: Signal) -> Seq<char> {
    match s {
        Signal::Start => "start"@,
        Signal::Stop => "stop"@,
        Signal::Restart => "restart"@,
    }
}

/// The name a signal is sent under.
pub fn signal_name_exec(sig: Signal) -> (res: &'static str)
    ensures
        res@ == signal_name(sig),
{
    match sig {
        Signal::Start => "start",
        Signal::Stop => "stop",
        Signal::Restart => "restart",
    }
}

/// What the Pterodactyl command does first.
#[derive(Clone, Debug, PartialEq, Eq)]
pub enum PteroStep {
    /// Answer at once, privately.
    Respond(Reply),
    /// List the servers of the panel.
    List { panel: PterodactylConfig },
    /// Fetch the resources of server `id`.
    Status { panel: PterodactylConfig, id: String },
    /// Send a power signal to server `id`.
    Power { panel: PterodactylConfig, id: String, signal: Signal },
}

/// The position of the first option that is a subcommand, from `k` on.
pub open spec fn first_subcommand_from(opts: Seq<CommandOption>, k: int) -> Option<int>
    decreases opts.len() - k,
{
    if k < 0 || k >= opts.len() {
        None
    } else if opts[k].value is SubCommand {
        Some(k)
    } else {
        first_subcommand_from(opts, k + 1)
    }
}

/// The server identifier given to a subcommand: its `id` option, empty when there is none.
pub open spec fn subcommand_id(sub: CommandOption) -> Seq<char> {
    match sub.value {
        OptionValue::SubCommand(inner) => match option_text(inner@, "id"@) {
            Some(t) => t,
            None => ""@,
        },
        _ => ""@,
    }
}

/// What the Pterodactyl command does with configuration `cfg` (none when it was not loaded)
/// and options `opts`: it answers privately when the configuration or its Pterodactyl section
/// is missing, or when no subcommand or an unknown one was given; else it lists, fetches a
/// status, or sends the signal its subcommand names, to the server its `id` names.
pub open spec fn ptero_step_ok(cfg: Option<Config>, opts: Seq<CommandOption>, res: PteroStep) -> bool {
    match cfg {
        None => res matches PteroStep::Respond(r) && r@ == text_reply("❌ Bot config not loaded."@, true),
        Some(c) => match c.pterodactyl {
            None => res matches PteroStep::Respond(r) && r@ == text_reply(
                "❌ Pterodactyl is not configured. Add `[pterodactyl]` to config.toml."@,
                true,
            ),
            Some(p) => match first_subcommand_from(opts, 0) {
                None => res matches PteroStep::Respond(r) && r@ == text_reply(
                    "❌ Invalid subcommand."@,
                    true,
                ),
                Some(k) => {
                    let name = opts[k].name@;
                    let id = subcommand_id(opts[k]);
                    let same_panel = |q: PterodactylConfig|
                        q.panel_url@ == p.panel_url@ && q.api_key@ == p.api_key@;
                    if name == "list"@ {
                        res matches PteroStep::List { panel } && same_panel(panel)
                    } else if name == "status"@ {
                        res matches PteroStep::Status { panel, id: i } && same_panel(panel) && i@
                            == id
                    } else if name == "start"@ || name == "stop"@ || name == "restart"@ {
                        res matches PteroStep::Power { panel, id: i, signal } && same_panel(panel)
                            && i@ == id && signal_name(signal) == name
                    } else {
                        res matches PteroStep::Respond(r) && r@ == text_reply(
                            "❌ Unknown subcommand."@,
                            true,
                        )
                    }
                },
            },
        },
    }
}

fn find_subcommand(opts: &Vec<CommandOption>) -> (res: Option<usize>)
    ensures
        match res {
            Some(k) => first_subcommand_from(opts@, 0) == Some(k as int) && k < opts@.len(),
            None => first_subcommand_from(opts@, 0) is None,
        },
{
    let n = opts.len();
    let mut k: usize = 0;
    while k < n
        invariant
            k <= n,
            n == opts@.len(),
            first_subcommand_from(opts@, 0) == first_subcommand_from(opts@, k as int),
        decreases n - k,
    {
        if let OptionValue::SubCommand(_) = &opts[k].value {
            return Some(k);
        }
        k = k + 1;
    }
    None
}

fn subcommand_id_exec(sub: &CommandOption) -> (res: String)
    ensures
        res@ == subcommand_id(*sub),
{
    match &sub.value {
        OptionValue::SubCommand(inner) => match get_option_str(inner, "id") {
            Some(t) => owned(t),
            None => owned(""),
        },
        _ => owned(""),
    }
}

fn copy_panel(p: &PterodactylConfig) -> (res: PterodactylConfig)
    ensures
        res.panel_url@ == p.panel_url@,
        res.api_key@ == p.api_key@,
{
    PterodactylConfig { panel_url: owned(p.panel_url.as_str()), api_key: owned(p.api_key.as_str()) }
}

/// Decides what the Pterodactyl command does.
pub fn handle(cfg: Option<&Config>, opts: &Vec<CommandOption>) -> (res: PteroStep)
    ensures
        ptero_step_ok(
            match cfg {
                Some(c) => Some(*c),
                None => None,
            },
            opts@,
            res,
        ),
{
    let c = match cfg {
        Some(c) => c,
        None => return PteroStep::Respond(Reply::text(owned("❌ Bot config not loaded."), true)),
    };
    let p = match &c.pterodactyl {
        Some(p) => p,
        None => return PteroStep::Respond(
            Reply::text(
                owned("❌ Pterodactyl is not configured. Add `[pterodactyl]` to config.toml."),
                true,
            ),
        ),
    };
    let k = match find_subcommand(opts) {
        Some(k) => k,
        None => return PteroStep::Respond(Reply::text(owned("❌ Invalid subcommand."), true)),
    };
    let sub = &opts[k];
    let name = sub.name.as_str();
    if str_eq(name, "list") {
        PteroStep::List { panel: copy_panel(p) }
    } else if str_eq(name, "status") {
        PteroStep::Status { panel: copy_panel(p), id: subcommand_id_exec(sub) }
    } else if str_eq(name, "start") {
        PteroStep::Power { panel: copy_panel(p), id: subcommand_id_exec(sub), signal: Signal::Start }
    } else if str_eq(name, "stop") {
        PteroStep::Power { panel: copy_panel(p), id: subcommand_id_exec(sub), signal: Signal::Stop }
    } else if str_eq(name, "restart") {
        PteroStep::Power {
            panel: copy_panel(p),
            id: subcommand_id_exec(sub),
            signal: Signal::Restart,
        }
    } else {
        PteroStep::Respond(Reply::text(owned("❌ Unknown subcommand."), true))
    }
}

/// Every subcommand that `/ptero` registers is carried out: with the panel configured, the
/// subcommand named first is never answered with a refusal; `list` lists, `status` fetches
/// the status, and every other registered subcommand sends the power signal of its own name.
pub proof fn law_ptero_handles_every_registered_subcommand(
    c: Config,
    opts: Seq<CommandOption>,
    j: int,
    k: int,
    res: PteroStep,
)
    requires
        c.pterodactyl is Some,
        0 <= k < pterodactyl_commands()[0].options.len(),
        first_subcommand_from(opts, 0) == Some(j),
        opts[j].name@ == pterodactyl_commands()[0].options[k].name,
        ptero_step_ok(Some(c), opts, res),
    ensures
        !(res is Respond),
        pterodactyl_commands()[0].options[k].name == "list"@ ==> res is List,
        pterodactyl_commands()[0].options[k].name == "status"@ ==> res is Status,
        pterodactyl_commands()[0].options[k].name != "list"@
            && pterodactyl_commands()[0].options[k].name != "status"@ ==> (res matches PteroStep::Power { signal, .. }
            && signal_name(signal) == pterodactyl_commands()[0].options[k].name),
{
    reveal_strlit("list");
    reveal_strlit("status");
    reveal_strlit("start");
    reveal_strlit("stop");
    reveal_strlit("restart");
    assert("list"@.len() != "status"@.len());
    assert("list"@.len() != "start"@.len());
    assert("list"@[0] != "stop"@[0]);
    assert("list"@.len() != "restart"@.len());
    assert("status"@[3] != "start"@[3]);
    assert("status"@.len() != "stop"@.len());
    assert("status"@.len() != "restart"@.len());
    assert("start"@.len() != "stop"@.len());
    assert("start"@.len() != "restart"@.len());
    assert("stop"@.len() != "restart"@.len());
    assert(k == 0 || k == 1 || k == 2 || k == 3 || k == 4);
}

/// An HTTP request to the panel's client API: the full URL and the `Authorization` header.
#[derive(Clone, Debug, PartialEq, Eq)]
pub struct ApiRequest {
    pub url: String,
    pub authorization: String,
}

/// The URL of a client-API endpoint of the panel at `panel_url`.
pub open spec fn api_url(panel_url: Seq<char>, endpoint: Seq<char>) -> Seq<char> {
    panel_url + "/api/client"@ + endpoint
}

/// The `Authorization` header value for client key `key`.
pub open spec fn bearer(key: Seq<char>) -> Seq<char> {
    "Bearer "@ + key
}

/// The request for endpoint `endpoint` of the panel.
pub fn api_request(panel: &PterodactylConfig, endpoint: &str) -> (res: ApiRequest)
    ensures
        res.url@ == api_url(panel.panel_url@, endpoint@),
        res.authorization@ == bearer(panel.api_key@),
{
    let mut url: Vec<char> = Vec::new();
    push_str(&mut url, panel.panel_url.as_str());
    push_str(&mut url, "/api/client");
    push_str(&mut url, endpoint);
    let mut auth: Vec<char> = Vec::new();
    push_str(&mut auth, "Bearer ");
    push_str(&mut auth, panel.api_key.as_str());
    assert(url@ =~= api_url(panel.panel_url@, endpoint@));
    assert(auth@ =~= bearer(panel.api_key@));
    ApiRequest { url: string_from_chars(&url), authorization: string_from_chars(&auth) }
}

/// The endpoint that lists the servers.
pub open spec fn list_endpoint() -> Seq<char> {
    "/"@
}

/// The endpoint with the resources of server `id`.
pub open spec fn resources_endpoint(id: Seq<char>) -> Seq<char> {
    "/servers/"@ + id + "/resources"@
}

/// The endpoint that takes power signals for server `id`.
pub open spec fn power_endpoint(id: Seq<char>) -> Seq<char> {
    "/servers/"@ + id + "/power"@
}

/// The request that lists the servers.
pub fn list_request(panel: &PterodactylConfig) -> (res: ApiRequest)
    ensures
        res.url@ == api_url(panel.panel_url@, list_endpoint()),
        res.authorization@ == bearer(panel.api_key@),
{
    api_request(panel, "/")
}

fn server_endpoint(id: &str, tail: &str) -> (res: String)
    ensures
        res@ == "/servers/"@ + id@ + tail@,
{
    let mut e: Vec<char> = Vec::new();
    push_str(&mut e, "/servers/");
    push_str(&mut e, id);
    push_str(&mut e, tail);
    assert(e@ =~= "/servers/"@ + id@ + tail@);
    string_from_chars(&e)
}

/// The request for the resources of server `id`.
pub fn status_request(panel: &PterodactylConfig, id: &str) -> (res: ApiRequest)
    ensures
        res.url@ == api_url(panel.panel_url@, resources_endpoint(id@)),
        res.authorization@ == bearer(panel.api_key@),
{
    let e = server_endpoint(id, "/resources");
    api_request(panel, e.as_str())
}

/// The request that sends a power signal to server `id`.
pub fn power_request(panel: &PterodactylConfig, id: &str) -> (res: ApiRequest)
    ensures
        res.url@ == api_url(panel.panel_url@, power_endpoint(id@)),
        res.authorization@ == bearer(panel.api_key@),
{
    let e = server_endpoint(id, "/power");
    api_request(panel, e.as_str())
}

/// The JSON body of a power request: an object whose one member `signal` holds the signal's
/// name.
pub open spec fn power_body_text(sig: Signal) -> Seq<char> {
    "{\"signal\":\""@ + signal_name(sig) + "\"}"@
}

/// The body to post with a power request.
pub fn power_body(sig: Signal) -> (res: String)
    ensures
        res@ == power_body_text(sig),
{
    let mut t: Vec<char> = Vec::new();
    push_str(&mut t, "{\"signal\":\"");
    push_str(&mut t, signal_name_exec(sig));
    push_str(&mut t, "\"}");
    assert(t@ =~= power_body_text(sig));
    string_from_chars(&t)
}

/// The reply when a panel request failed with message `e`.
pub open spec fn api_error_text(e: Seq<char>) -> Seq<char> {
    "❌ API error: "@ + e
}

/// The reply when a panel request failed.
pub fn api_error(e: &str) -> (res: Reply)
    ensures
        res@ == text_reply(api_error_text(e@), false),
{
    let mut t: Vec<char> = Vec::new();
    push_str(&mut t, "❌ API error: ");
    push_str(&mut t, e);
    assert(t@ =~= api_error_text(e@));
    Reply::text(string_from_chars(&t), false)
}

/// A server as the panel lists it; a field is `None` when the listing has no text for it.
#[derive(Clone, Debug, PartialEq, Eq)]
pub struct ServerSummary {
    pub name: Option<String>,
    pub identifier: Option<String>,
    pub node: Option<String>,
}

pub open spec fn or_text(o: Option<String>, default: Seq<char>) -> Seq<char> {
    match o {
        Some(t) => t@,
        None => default,
    }
}

/// The line that lists a server: its identifier (`?` when missing), its name (`Unknown`),
/// and its node (`?`).
pub open spec fn server_line(srv: ServerSummary) -> Seq<char> {
    "`"@ + or_text(srv.identifier, "?"@) + "` **"@ + or_text(srv.name, "Unknown"@)
        + "** — Node: "@ + or_text(srv.node, "?"@) + "\n"@
}

/// The lines of the first `n` servers, one after another.
pub open spec fn server_lines(servers: Seq<ServerSummary>, n: int) -> Seq<char>
    decreases n,
{
    if n <= 0 || n > servers.len() {
        Seq::empty()
    } else {
        server_lines(servers, n - 1) + server_line(servers[n - 1])
    }
}

/// The reply to a server listing: `No servers found.` when there are none, else an embed of
/// their lines with the number of servers in its footer.
pub open spec fn list_view(servers: Seq<ServerSummary>) -> ReplyView {
    if servers.len() == 0 {
        text_reply("No servers found."@, false)
    } else {
        embed_reply(
            e_footer(
                e_color(
                    e_description(
                        e_title(embed(), "📋 Pterodactyl Servers"@),
                        server_lines(servers, servers.len() as int),
                    ),
                    0x00d2ff,
                ),
                "Total: "@ + dec_digits(servers.len()) + " servers"@,
            ),
            false,
        )
    }
}

fn push_or(out: &mut Vec<char>, o: &Option<String>, default: &str)
    ensures
        final(out)@ == old(out)@ + or_text(*o, default@),
{
    match o {
        Some(t) => push_str(out, t.as_str()),
        None => push_str(out, default),
    }
}

/// The reply to a server listing.
pub fn list_reply(servers: &Vec<ServerSummary>) -> (res: Reply)
    ensures
        res@ == list_view(servers@),
{
    let n = servers.len();
    if n == 0 {
        return Reply::text(owned("No servers found."), false);
    }
    let mut desc: Vec<char> = Vec::new();
    let mut i: usize = 0;
    while i < n
        invariant
            i <= n,
            n == servers@.len(),
            desc@ == server_lines(servers@, i as int),
        decreases n - i,
    {
        let ghost before = desc@;
        let srv = &servers[i];
        push_str(&mut desc, "`");
        push_or(&mut desc, &srv.identifier, "?");
        push_str(&mut desc, "` **");
        push_or(&mut desc, &srv.name, "Unknown");
        push_str(&mut desc, "** — Node: ");
        push_or(&mut desc, &srv.node, "?");
        push_str(&mut desc, "\n");
        assert(desc@ =~= before + server_line(servers@[i as int]));
        i = i + 1;
    }
    let mut footer: Vec<char> = Vec::new();
    push_str(&mut footer, "Total: ");
    push_u64(&mut footer, n as u64);
    push_str(&mut footer, " servers");
    assert(footer@ =~= "Total: "@ + dec_digits(n as nat) + " servers"@);
    let e = EmbedSpec::new().title(owned("📋 Pterodactyl Servers")).description(
        string_from_chars(&desc),
    ).color(0x00d2ff).footer(string_from_chars(&footer));
    Reply::embed(e, false)
}

/// The icon of a server state.
pub open spec fn state_icon(state: Seq<char>) -> Seq<char> {
    if state == "running"@ {
        "🟢"@
    } else if state == "starting"@ {
        "🟡"@
    } else if state == "stopping"@ {
        "🟠"@
    } else {
        "🔴"@
    }
}

/// The embed color of a server state: green when running, red otherwise.
pub open spec fn state_color(state: Seq<char>) -> u32 {
    if state == "running"@ {
        0x00ff9d
    } else {
        0xff4466
    }
}

/// The reply to a status request for server `id`: its state (`unknown` when the panel gave
/// none) with its icon and color, and the RAM, CPU and disk texts.
pub open spec fn status_view(
    id: Seq<char>,
    state: Option<Seq<char>>,
    ram: Seq<char>,
    cpu: Seq<char>,
    disk: Seq<char>,
) -> ReplyView {
    let st = match state {
        Some(t) => t,
        None => "unknown"@,
    };
    embed_reply(
        e_field(
            e_field(
                e_field(
                    e_field(
                        e_color(e_title(embed(), "Server: "@ + id), state_color(st)),
                        "Status"@,
                        state_icon(st) + " "@ + st,
                        true,
                    ),
                    "RAM"@,
                    ram,
                    true,
                ),
                "CPU"@,
                cpu,
                true,
            ),
            "Disk"@,
            disk,
            true,
        ),
        false,
    )
}

/// The reply to a status request.
pub fn status_reply(id: &str, state: Option<&str>, ram: &str, cpu: &str, disk: &str) -> (res: Reply)
    ensures
        res@ == status_view(
            id@,
            match state {
                Some(t) => Some(t@),
                None => None,
            },
            ram@,
            cpu@,
            disk@,
        ),
{
    let st = match state {
        Some(t) => t,
        None => "unknown",
    };
    let icon = if str_eq(st, "running") {
        "🟢"
    } else if str_eq(st, "starting") {
        "🟡"
    } else if str_eq(st, "stopping") {
        "🟠"
    } else {
        "🔴"
    };
    let color: u32 = if str_eq(st, "running") {
        0x00ff9d
    } else {
        0xff4466
    };
    let mut title: Vec<char> = Vec::new();
    push_str(&mut title, "Server: ");
    push_str(&mut title, id);
    let mut status: Vec<char> = Vec::new();
    push_str(&mut status, icon);
    push_str(&mut status, " ");
    push_str(&mut status, st);
    let e = EmbedSpec::new().title(string_from_chars(&title)).color(color).field(
        owned("Status"),
        string_from_chars(&status),
        true,
    ).field(owned("RAM"), owned(ram), true).field(owned("CPU"), owned(cpu), true).field(
        owned("Disk"),
        owned(disk),
        true,
    );
    Reply::embed(e, false)
}

/// The icon of a power signal.
pub open spec fn signal_icon(sig: Signal) -> Seq<char> {
    match sig {
        Signal::Start => "▶️"@,
        Signal::Stop => "⏹️"@,
        Signal::Restart => "🔄"@,
    }
}

/// The reply once signal `sig` was sent to server `id`.
pub open spec fn power_text(sig: Signal, id: Seq<char>) -> Seq<char> {
    signal_icon(sig) + " `"@ + signal_name(sig) + "` signal sent to server `"@ + id + "`"@
}

/// The reply once a power signal was sent.
pub fn power_reply(sig: Signal, id: &str) -> (res: Reply)
    ensures
        res@ == text_reply(power_text(sig, id@), false),
{
    let icon = match sig {
        Signal::Start => "▶️",
        Signal::Stop => "⏹️",
        Signal::Restart => "🔄",
    };
    let mut t: Vec<char> = Vec::new();
    push_str(&mut t, icon);
    push_str(&mut t, " `");
    push_str(&mut t, signal_name_exec(sig));
    push_str(&mut t, "` signal sent to server `");
    push_str(&mut t, id);
    push_str(&mut t, "`");
    assert(t@ =~= power_text(sig, id@));
    Reply::text(string_from_chars(&t), false)
}

/// The unit a byte count is shown in.
#[derive(PartialEq, Eq, Structural, Clone, Copy, Debug)]
pub enum ByteUnit {
    Gigabytes,
    Megabytes,
    Kilobytes,
    Bytes,
}

/// The unit for `b` bytes: the largest of GB (2^30), MB (2^20), KB (2^10) that is at most `b`;
/// plain bytes below 1024.
pub open spec fn byte_unit_of(b: u64) -> ByteUnit {
    if b >= 1_073_741_824 {
        ByteUnit::Gigabytes
    } else if b >= 1_048_576 {
        ByteUnit::Megabytes
    } else if b >= 1_024 {
        ByteUnit::Kilobytes
    } else {
        ByteUnit::Bytes
    }
}

/// The number of bytes in one unit.
pub open spec fn unit_size(u: ByteUnit) -> u64 {
    match u {
        ByteUnit::Gigabytes => 1_073_741_824,
        ByteUnit::Megabytes => 1_048_576,
        ByteUnit::Kilobytes => 1_024,
        ByteUnit::Bytes => 1,
    }
}

/// The unit to show `b` bytes in.
pub fn byte_unit(b: u64) -> (res: ByteUnit)
    ensures
        res == byte_unit_of(b),
        unit_size(res) <= b || res == ByteUnit::Bytes,
        res != ByteUnit::Gigabytes ==> b < unit_size(res) * 1024,
{
    if b >= 1_073_741_824 {
        ByteUnit::Gigabytes
    } else if b >= 1_048_576 {
        ByteUnit::Megabytes
    } else if b >= 1_024 {
        ByteUnit::Kilobytes
    } else {
        ByteUnit::Bytes
    }
}

/// The suffix a unit is written with.
pub open spec fn unit_suffix(u: ByteUnit) -> Seq<char> {
    match u {
        ByteUnit::Gigabytes => "GB"@,
        ByteUnit::Megabytes => "MB"@,
        ByteUnit::Kilobytes => "KB"@,
        ByteUnit::Bytes => "B"@,
    }
}

/// The number of bytes in one unit.
pub fn unit_bytes(u: ByteUnit) -> (res: u64)
    ensures
        res == unit_size(u),
{
    match u {
        ByteUnit::Gigabytes => 1_073_741_824,
        ByteUnit::Megabytes => 1_048_576,
        ByteUnit::Kilobytes => 1_024,
        ByteUnit::Bytes => 1,
    }
}

/// The suffix of a unit.
pub fn unit_suffix_exec(u: ByteUnit) -> (res: &'static str)
    ensures
        res@ == unit_suffix(u),
{
    match u {
        ByteUnit::Gigabytes => "GB",
        ByteUnit::Megabytes => "MB",
        ByteUnit::Kilobytes => "KB",
        ByteUnit::Bytes => "B",
    }
}

/// The text of a byte count below 1024: the number and `B`.
pub fn plain_bytes_text(b: u64) -> (res: String)
    ensures
        res@ == dec_digits(b as nat) + "B"@,
{
    let mut t: Vec<char> = Vec::new();
    push_u64(&mut t, b);
    push_str(&mut t, "B");
    string_from_chars(&t)
}

} // verus!

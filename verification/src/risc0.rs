//! Logic of the Risc0 backend: the input stream the guest reads, the
//! segment and keccak sizes, the build of a guest with a stock toolchain,
//! and the Bento proving service (its environment, its GPU provers and its
//! proving sessions).
use crate::compile_utils::{CargoBuildCmd, CargoBuildCmdView};
use crate::dockerized::env::{env_lookup, EnvVars};
use crate::dockerized_server::{InputItemView, ProofKind, SerializedInputItem};
use crate::text::{
    decimal, decimal_string, digits_value, parse_usize, parses_as_usize, string_of, unsigned_digits,
};
use vstd::prelude::*;

verus! {

/// The four little-endian bytes of `n`.
pub open spec fn le32(n: u32) -> Seq<u8> {
    seq![
        (n % 256) as u8,
        ((n / 256) % 256) as u8,
        ((n / 65536) % 256) as u8,
        ((n / 16777216) % 256) as u8,
    ]
}

/// The bytes one input item contributes to the guest's input stream: a
/// serialized object as it is, raw bytes framed by their length as a
/// little-endian `u32` (a length beyond `u32::MAX` wraps, as `as u32` does).
pub open spec fn item_stream(item: InputItemView) -> Seq<u8> {
    if item.is_bytes {
        le32(item.data.len() as u32) + item.data
    } else {
        item.data
    }
}

/// The guest's input stream: the items' contributions, in order.
pub open spec fn input_stream(items: Seq<InputItemView>) -> Seq<u8>
    decreases items.len(),
{
    if items.len() == 0 {
        Seq::empty()
    } else {
        input_stream(items.drop_last()) + item_stream(items.last())
    }
}

/// Appends the bytes of `src` to `dst`.
pub fn append_bytes(dst: &mut Vec<u8>, src: &Vec<u8>)
    ensures
        final(dst)@ == old(dst)@ + src@,
{
    let ghost start = dst@;
    let mut i: usize = 0;
    while i < src.len()
        invariant
            i <= src.len(),
            dst@ == start + src@.take(i as int),
        decreases src.len() - i,
    {
        dst.push(src[i]);
        assert(src@.take(i + 1) =~= src@.take(i as int).push(src@[i as int]));
        assert(dst@ =~= start + src@.take(i + 1));
        i = i + 1;
    }
    assert(src@.take(i as int) =~= src@);
}

/// The four little-endian bytes of `n`.
pub fn le32_bytes(n: u32) -> (r: Vec<u8>)
    ensures
        r@ == le32(n),
{
    let mut r: Vec<u8> = Vec::new();
    r.push((n % 256) as u8);
    r.push(((n / 256) % 256) as u8);
    r.push(((n / 65536) % 256) as u8);
    r.push(((n / 16777216) % 256) as u8);
    assert(r@ =~= le32(n));
    r
}

/// The guest's input stream for `items`, as the Risc0 executor and the
/// Bento service receive it.
pub fn input_bytes(items: &Vec<SerializedInputItem>) -> (r: Vec<u8>)
    ensures
        r@ == input_stream(items@.map_values(|i: SerializedInputItem| i@)),
{
    let ghost views = items@.map_values(|i: SerializedInputItem| i@);
    let mut r: Vec<u8> = Vec::new();
    let mut k: usize = 0;
    while k < items.len()
        invariant
            k <= items.len(),
            views == items@.map_values(|i: SerializedInputItem| i@),
            r@ == input_stream(views.take(k as int)),
        decreases items.len() - k,
    {
        assert(views.take(k + 1).drop_last() =~= views.take(k as int));
        assert(views[k as int] == items[k as int]@);
        match &items[k] {
            SerializedInputItem::SerializedObject(bytes) => {
                append_bytes(&mut r, bytes);
            },
            SerializedInputItem::Bytes(bytes) => {
                let len = le32_bytes(bytes.len() as u32);
                append_bytes(&mut r, &len);
                append_bytes(&mut r, bytes);
            },
        }
        assert(r@ =~= input_stream(views.take(k + 1)));
        k = k + 1;
    }
    assert(views.take(k as int) =~= views);
    r
}

/// Logarithmic segment size used when none is configured.
pub const DEFAULT_SEGMENT_PO2: usize = 20;

/// Smallest supported logarithmic segment size.
pub const MIN_SEGMENT_PO2: usize = 14;

/// Largest supported logarithmic segment size (the prover's default maximum).
pub const MAX_SEGMENT_PO2: usize = 22;

/// Logarithmic keccak size used when none is configured.
pub const DEFAULT_KECCAK_PO2: usize = 17;

/// Smallest supported logarithmic keccak size.
pub const MIN_KECCAK_PO2: usize = 14;

/// Largest supported logarithmic keccak size.
pub const MAX_KECCAK_PO2: usize = 18;

/// The configured value: the setting when it parses as a number, the default
/// otherwise.
pub open spec fn po2_value_of(setting: Option<Seq<char>>, default: usize) -> nat {
    match setting {
        Some(s) => if parses_as_usize(s) {
            digits_value(unsigned_digits(s))
        } else {
            default as nat
        },
        None => default as nat,
    }
}

/// The logarithmic size that a setting (the value of `RISC0_SEGMENT_PO2` or
/// `RISC0_KECCAK_PO2`, when set) selects.
pub fn po2_value(setting: Option<&str>, default: usize) -> (r: usize)
    ensures
        r == po2_value_of(
            match setting {
                Some(s) => Some(s@),
                None => None,
            },
            default,
        ),
{
    match setting {
        Some(s) => match parse_usize(s) {
            Some(v) => v,
            None => default,
        },
        None => default,
    }
}

/// Whether `value` lies in `lo..=hi`; a value outside is refused.
pub fn po2_in_range(value: usize, lo: usize, hi: usize) -> (r: bool)
    ensures
        r == (lo <= value && value <= hi),
{
    lo <= value && value <= hi
}

/// Kinds of receipt the Risc0 prover produces.
#[derive(Clone, Copy, Debug, PartialEq, Eq, Structural)]
pub enum ReceiptKind {
    Composite,
    Succinct,
    Groth16,
    Fake,
}

/// Whether a receipt of kind `receipt` is a proof of kind `proof`: a
/// compressed proof is a succinct receipt, a Groth16 proof a Groth16 one.
pub open spec fn receipt_matches(proof: ProofKind, receipt: ReceiptKind) -> bool {
    (proof == ProofKind::Compressed && receipt == ReceiptKind::Succinct) || (proof
        == ProofKind::Groth16 && receipt == ReceiptKind::Groth16)
}

/// Whether a receipt of kind `receipt` may stand for a proof of kind
/// `proof`; a proof that does not is rejected before verification.
pub fn receipt_kind_matches(proof: ProofKind, receipt: ReceiptKind) -> (r: bool)
    ensures
        r == receipt_matches(proof, receipt),
{
    match (proof, receipt) {
        (ProofKind::Compressed, ReceiptKind::Succinct) => true,
        (ProofKind::Groth16, ReceiptKind::Groth16) => true,
        _ => false,
    }
}

/// Target of guest programs built with a stock toolchain.
pub const TARGET_TRIPLE: &'static str = "riscv32ima-unknown-none-elf";

/// Compiler flags of a stock-toolchain guest build.
pub open spec fn stock_rustflags() -> Seq<Seq<char>> {
    seq![
        "-C"@,
        "passes=lower-atomic"@,
        "-C"@,
        "link-arg=-Ttext=0x00200800"@,
        "-C"@,
        "link-arg=--fatal-warnings"@,
        "-C"@,
        "panic=abort"@,
        "--cfg"@,
        "getrandom_backend=\"custom\""@,
    ]
}

/// The `cargo build` of a guest with the stock toolchain `toolchain`.
pub fn stock_rust_build_cmd(toolchain: &str) -> (r: CargoBuildCmd)
    ensures
        r@ == (CargoBuildCmdView {
            toolchain: toolchain@,
            profile: "release"@,
            rustflags: stock_rustflags(),
            build_options: seq!["-Zbuild-std=core,alloc"@],
            linker_script: None,
        }),
{
    let flags = [
        "-C",
        "passes=lower-atomic",
        "-C",
        "link-arg=-Ttext=0x00200800",
        "-C",
        "link-arg=--fatal-warnings",
        "-C",
        "panic=abort",
        "--cfg",
        "getrandom_backend=\"custom\"",
    ];
    let options = ["-Zbuild-std=core,alloc"];
    let r = CargoBuildCmd::new().toolchain(toolchain).build_options(options.as_slice()).rustflags(
        flags.as_slice(),
    );
    assert(flags@.map_values(|s: &str| s@) =~= stock_rustflags());
    assert(options@.map_values(|s: &str| s@) =~= seq!["-Zbuild-std=core,alloc"@]);
    r
}

/// What to do after asking Bento for the status of a proving session.
#[derive(Debug, PartialEq, Eq)]
pub enum SessionStep {
    /// Still proving: ask again after a pause.
    Wait,
    /// Proving succeeded: download the receipt.
    Download,
    /// Proving failed; the error message.
    Fail(String),
}

/// The message with which a session that is neither running nor done fails.
pub open spec fn session_failure_message(status: Seq<char>, error_msg: Option<Seq<char>>) -> Seq<char> {
    if status == "FAILED"@ {
        "Job failed with error message: "@ + match error_msg {
            Some(m) => m,
            None => Seq::empty(),
        }
    } else {
        "Unexpected proving status: "@ + status
    }
}

/// The step that a session's status (and error message, if any) calls for:
/// `RUNNING` waits, `SUCCEEDED` downloads, `FAILED` fails with the session's
/// message, any other status fails as unexpected.
pub fn session_step(status: &str, error_msg: Option<&str>) -> (r: SessionStep)
    ensures
        match r {
            SessionStep::Wait => status@ == "RUNNING"@,
            SessionStep::Download => status@ == "SUCCEEDED"@,
            SessionStep::Fail(m) => status@ != "RUNNING"@ && status@ != "SUCCEEDED"@ && m@
                == session_failure_message(
                status@,
                match error_msg {
                    Some(e) => Some(e@),
                    None => None,
                },
            ),
        },
{
    if crate::text::same_text(status, "RUNNING") {
        SessionStep::Wait
    } else if crate::text::same_text(status, "SUCCEEDED") {
        SessionStep::Download
    } else if crate::text::same_text(status, "FAILED") {
        let mut m = string_of("Job failed with error message: ");
        match error_msg {
            Some(e) => {
                m.append(e);
            },
            None => {},
        }
        SessionStep::Fail(m)
    } else {
        let mut m = string_of("Unexpected proving status: ");
        m.append(status);
        SessionStep::Fail(m)
    }
}

/// The lines of `s`, as `str::lines` yields them: split at `\n`, a `\r`
/// before the `\n` dropped, no empty line after a final `\n`.
pub open spec fn lines_of(s: Seq<char>) -> Seq<Seq<char>>
    decreases s.len(),
{
    if s.len() == 0 {
        Seq::empty()
    } else {
        let i = newline_index(s) as int;
        if i < s.len() {
            seq![strip_cr(s.take(i))] + lines_of(s.skip(i + 1))
        } else {
            seq![s]
        }
    }
}

/// Position of the first `\n` in `s`, or its length.
pub open spec fn newline_index(s: Seq<char>) -> nat
    decreases s.len(),
{
    if s.len() == 0 {
        0
    } else if s[0] == '\n' {
        0
    } else {
        1 + newline_index(s.drop_first())
    }
}

/// `s` without a final `\r`.
pub open spec fn strip_cr(s: Seq<char>) -> Seq<char> {
    if s.len() > 0 && s.last() == '\r' {
        s.drop_last()
    } else {
        s
    }
}

/// Position of the first `=` in `s`, or its length.
pub open spec fn equals_index(s: Seq<char>) -> nat
    decreases s.len(),
{
    if s.len() == 0 {
        0
    } else if s[0] == '=' {
        0
    } else {
        1 + equals_index(s.drop_first())
    }
}

/// The variables an env file's lines declare, `KEY=default`, each with the
/// value the environment gives it or else its default; lines without `=`
/// declare nothing.
pub open spec fn env_file_vars(lines: Seq<Seq<char>>, env: Seq<(Seq<char>, Seq<char>)>) -> Seq<(Seq<char>, Seq<char>)>
    decreases lines.len(),
{
    if lines.len() == 0 {
        Seq::empty()
    } else {
        let line = lines.last();
        let i = equals_index(line) as int;
        env_file_vars(lines.drop_last(), env) + if i < line.len() {
            let key = line.take(i);
            seq![
                (key, match env_lookup(env, key) {
                    Some(v) => v,
                    None => line.skip(i + 1),
                }),
            ]
        } else {
            Seq::empty()
        }
    }
}

proof fn lemma_newline_index(s: Seq<char>, i: int)
    requires
        0 <= i <= s.len(),
        forall|j: int| 0 <= j < i ==> #[trigger] s[j] != '\n',
        i == s.len() || s[i] == '\n',
    ensures
        newline_index(s) == i,
    decreases i,
{
    if i > 0 {
        lemma_newline_index(s.drop_first(), i - 1);
    }
}

proof fn lemma_equals_index(s: Seq<char>, i: int)
    requires
        0 <= i <= s.len(),
        forall|j: int| 0 <= j < i ==> #[trigger] s[j] != '=',
        i == s.len() || s[i] == '=',
    ensures
        equals_index(s) == i,
    decreases i,
{
    if i > 0 {
        lemma_equals_index(s.drop_first(), i - 1);
    }
}

/// The lines of `s`.
pub fn lines(s: &str) -> (r: Vec<String>)
    ensures
        r.deep_view() == lines_of(s@),
{
    let n = s.unicode_len();
    let mut r: Vec<String> = Vec::new();
    let mut start: usize = 0;
    assert(s@.skip(0) =~= s@);
    while start < n
        invariant
            n == s@.len(),
            start <= n,
            lines_of(s@) == r.deep_view() + lines_of(s@.skip(start as int)),
        decreases n - start,
    {
        let ghost rest = s@.skip(start as int);
        let mut i: usize = start;
        while i < n && s.get_char(i) != '\n'
            invariant
                n == s@.len(),
                start <= i <= n,
                rest == s@.skip(start as int),
                forall|j: int| 0 <= j < i - start ==> #[trigger] rest[j] != '\n',
            decreases n - i,
        {
            i = i + 1;
        }
        proof {
            lemma_newline_index(rest, i - start);
        }
        let ghost before = r.deep_view();
        if i < n {
            let mut end = i;
            if end > start && s.get_char(end - 1) == '\r' {
                end = end - 1;
            }
            let line = s.substring_char(start, end);
            assert(line@ =~= strip_cr(rest.take(i - start)));
            r.push(string_of(line));
            assert(rest.skip(i - start + 1) =~= s@.skip(i + 1));
            assert(r.deep_view() =~= before.push(strip_cr(rest.take(i - start))));
            assert(lines_of(rest) == seq![strip_cr(rest.take(i - start))] + lines_of(
                rest.skip(i - start + 1),
            ));
            start = i + 1;
        } else {
            let line = s.substring_char(start, n);
            assert(line@ =~= rest);
            r.push(string_of(line));
            assert(r.deep_view() =~= before.push(rest));
            assert(s@.skip(n as int) =~= Seq::<char>::empty());
            start = n;
        }
    }
    assert(s@.skip(start as int) =~= Seq::<char>::empty());
    assert(r.deep_view() + Seq::<Seq<char>>::empty() =~= r.deep_view());
    r
}

/// The variables an env file declares, with the values `env` overrides.
pub fn env_file_values(file: &str, env: &EnvVars) -> (r: Vec<(String, String)>)
    ensures
        r@.map_values(|p: (String, String)| (p.0@, p.1@)) == env_file_vars(lines_of(file@), env@),
{
    let ls = lines(file);
    let ghost lv = ls.deep_view();
    let mut r: Vec<(String, String)> = Vec::new();
    let mut k: usize = 0;
    while k < ls.len()
        invariant
            k <= ls.len(),
            lv == ls.deep_view(),
            lv == lines_of(file@),
            r@.map_values(|p: (String, String)| (p.0@, p.1@)) == env_file_vars(lv.take(k as int), env@),
        decreases ls.len() - k,
    {
        let line = ls[k].as_str();
        let ghost lview = lv[k as int];
        assert(line@ == lview);
        assert(lv.take(k + 1).drop_last() =~= lv.take(k as int));
        assert(lv.take(k + 1).last() == lview);
        let m = line.unicode_len();
        let mut i: usize = 0;
        while i < m && line.get_char(i) != '='
            invariant
                m == line@.len(),
                i <= m,
                forall|j: int| 0 <= j < i ==> #[trigger] line@[j] != '=',
            decreases m - i,
        {
            i = i + 1;
        }
        proof {
            lemma_equals_index(line@, i as int);
        }
        let ghost before = r@.map_values(|p: (String, String)| (p.0@, p.1@));
        if i < m {
            let key = line.substring_char(0, i);
            let value = match env.get(key) {
                Some(v) => string_of(v),
                None => string_of(line.substring_char(i + 1, m)),
            };
            r.push((string_of(key), value));
            assert(line@.skip(i + 1) =~= line@.subrange(i + 1, m as int));
            assert(r@.map_values(|p: (String, String)| (p.0@, p.1@)) =~= env_file_vars(
                lv.take(k + 1),
                env@,
            ));
        } else {
            assert(r@.map_values(|p: (String, String)| (p.0@, p.1@)) =~= env_file_vars(
                lv.take(k + 1),
                env@,
            ));
        }
        k = k + 1;
    }
    assert(lv.take(k as int) =~= lv);
    r
}

/// The pieces of `s` between commas, as `str::split(',')` yields them.
pub open spec fn comma_pieces(s: Seq<char>) -> Seq<Seq<char>>
    decreases s.len(),
{
    let i = comma_index(s) as int;
    if i < s.len() {
        seq![s.take(i)] + comma_pieces(s.skip(i + 1))
    } else {
        seq![s]
    }
}

/// Position of the first `,` in `s`, or its length.
pub open spec fn comma_index(s: Seq<char>) -> nat
    decreases s.len(),
{
    if s.len() == 0 {
        0
    } else if s[0] == ',' {
        0
    } else {
        1 + comma_index(s.drop_first())
    }
}

/// The numbers among `pieces`, in order; pieces that do not parse are
/// skipped.
pub open spec fn parsed_numbers(pieces: Seq<Seq<char>>) -> Seq<nat>
    decreases pieces.len(),
{
    if pieces.len() == 0 {
        Seq::empty()
    } else {
        parsed_numbers(pieces.drop_last()) + if parses_as_usize(pieces.last()) {
            seq![digits_value(unsigned_digits(pieces.last()))]
        } else {
            Seq::empty()
        }
    }
}

/// The GPU indices that `CUDA_VISIBLE_DEVICES` lists.
pub open spec fn visible_devices_of(setting: Seq<char>) -> Seq<nat> {
    parsed_numbers(comma_pieces(setting))
}

proof fn lemma_comma_index(s: Seq<char>, i: int)
    requires
        0 <= i <= s.len(),
        forall|j: int| 0 <= j < i ==> #[trigger] s[j] != ',',
        i == s.len() || s[i] == ',',
    ensures
        comma_index(s) == i,
    decreases i,
{
    if i > 0 {
        lemma_comma_index(s.drop_first(), i - 1);
    }
}

/// The GPU indices that `CUDA_VISIBLE_DEVICES` lists (the empty string when
/// it is not set); entries that are not numbers are skipped.
pub fn visible_devices(setting: &str) -> (r: Vec<usize>)
    ensures
        r@.map_values(|d: usize| d as nat) == visible_devices_of(setting@),
{
    let n = setting.unicode_len();
    let mut r: Vec<usize> = Vec::new();
    let mut start: usize = 0;
    let ghost mut done: Seq<Seq<char>> = Seq::empty();
    let mut finished = false;
    assert(setting@.skip(0) =~= setting@);
    assert(done + comma_pieces(setting@.skip(0)) =~= comma_pieces(setting@));
    while !finished
        invariant
            n == setting@.len(),
            start <= n,
            !finished ==> comma_pieces(setting@) == done + comma_pieces(setting@.skip(start as int)),
            finished ==> comma_pieces(setting@) == done,
            r@.map_values(|d: usize| d as nat) == parsed_numbers(done),
        decreases n - start, if finished { 0int } else { 1int },
    {
        let ghost rest = setting@.skip(start as int);
        let mut i: usize = start;
        while i < n && setting.get_char(i) != ','
            invariant
                n == setting@.len(),
                start <= i <= n,
                rest == setting@.skip(start as int),
                forall|j: int| 0 <= j < i - start ==> #[trigger] rest[j] != ',',
            decreases n - i,
        {
            i = i + 1;
        }
        proof {
            lemma_comma_index(rest, i - start);
        }
        let piece = setting.substring_char(start, i);
        assert(piece@ =~= rest.take(i - start));
        let ghost before = r@.map_values(|d: usize| d as nat);
        match parse_usize(piece) {
            Some(v) => {
                r.push(v);
                assert(r@.map_values(|d: usize| d as nat) =~= before.push(v as nat));
            },
            None => {},
        }
        proof {
            let newdone = done.push(piece@);
            assert(newdone.drop_last() =~= done);
            assert(r@.map_values(|d: usize| d as nat) =~= parsed_numbers(newdone));
            done = newdone;
        }
        if i < n {
            assert(rest.skip(i - start + 1) =~= setting@.skip(i + 1));
            assert(comma_pieces(rest) == seq![rest.take(i - start)] + comma_pieces(
                rest.skip(i - start + 1),
            ));
            assert(comma_pieces(setting@) =~= done + comma_pieces(setting@.skip(i + 1)));
            start = i + 1;
        } else {
            assert(comma_pieces(rest) == seq![rest]);
            assert(rest.take(i - start) =~= rest);
            assert(comma_pieces(setting@) =~= done);
            finished = true;
        }
    }
    r
}

/// Which GPUs a prover agent of the Bento service gets.
#[derive(Clone, Copy, Debug, PartialEq, Eq, Structural)]
pub enum AgentGpus {
    /// Every GPU.
    All,
    /// The GPU with this index.
    Device(usize),
}

/// The GPU prover agents of the Bento service: one agent with every GPU when
/// no device is listed, otherwise one agent per listed device, named
/// `gpu_prove_agent{index}`.
pub open spec fn gpu_agents_of(devices: Seq<usize>) -> Seq<(Seq<char>, AgentGpus)> {
    if devices.len() == 0 {
        seq![("gpu_prove_agent0"@, AgentGpus::All)]
    } else {
        Seq::new(
            devices.len(),
            |i: int| ("gpu_prove_agent"@ + decimal(devices[i] as nat), AgentGpus::Device(devices[i])),
        )
    }
}

/// The GPU prover agents for the visible `devices`.
pub fn gpu_agents(devices: &Vec<usize>) -> (r: Vec<(String, AgentGpus)>)
    ensures
        r@.map_values(|a: (String, AgentGpus)| (a.0@, a.1)) == gpu_agents_of(devices@),
{
    let mut r: Vec<(String, AgentGpus)> = Vec::new();
    if devices.len() == 0 {
        r.push((string_of("gpu_prove_agent0"), AgentGpus::All));
        assert(r@.map_values(|a: (String, AgentGpus)| (a.0@, a.1)) =~= gpu_agents_of(devices@));
        return r;
    }
    let mut i: usize = 0;
    while i < devices.len()
        invariant
            i <= devices.len(),
            r@.len() == i,
            forall|j: int|
                0 <= j < i ==> (#[trigger] r@[j]).0@ == "gpu_prove_agent"@ + decimal(
                    devices@[j] as nat,
                ) && r@[j].1 == AgentGpus::Device(devices@[j]),
        decreases devices.len() - i,
    {
        let d = devices[i];
        let mut name = string_of("gpu_prove_agent");
        let digits = decimal_string(d as u64);
        name.append(digits.as_str());
        r.push((name, AgentGpus::Device(d)));
        i = i + 1;
    }
    assert(r@.map_values(|a: (String, AgentGpus)| (a.0@, a.1)) =~= gpu_agents_of(devices@));
    r
}

/// The arguments of `docker compose` reading the compose file from standard
/// input, followed by `command`.
pub open spec fn compose_argv(command: Seq<Seq<char>>) -> Seq<Seq<char>> {
    seq!["compose"@, "--file"@, "-"@] + command
}

/// The arguments of `docker compose --file - {command..}`.
pub fn compose_args(command: &Vec<String>) -> (r: Vec<String>)
    ensures
        r.deep_view() == compose_argv(command.deep_view()),
{
    let mut r: Vec<String> = Vec::new();
    r.push(string_of("compose"));
    r.push(string_of("--file"));
    r.push(string_of("-"));
    crate::text::extend_strings(&mut r, command);
    assert(r.deep_view() =~= compose_argv(command.deep_view()));
    r
}

/// The `docker compose` command that starts the Bento service and waits
/// until it is up; `compose_args` puts it after the compose-file options.
pub fn docker_compose_bento_up() -> (r: Vec<String>)
    ensures
        r.deep_view() == seq!["up"@, "--detach"@, "--wait"@],
{
    let mut r: Vec<String> = Vec::new();
    r.push(string_of("up"));
    r.push(string_of("--detach"));
    r.push(string_of("--wait"));
    assert(r.deep_view() =~= seq!["up"@, "--detach"@, "--wait"@]);
    r
}

/// The `docker compose` command that stops the Bento service and removes
/// its volumes; `compose_args` puts it after the compose-file options.
pub fn docker_compose_bento_down() -> (r: Vec<String>)
    ensures
        r.deep_view() == seq!["down"@, "--volumes"@],
{
    let mut r: Vec<String> = Vec::new();
    r.push(string_of("down"));
    r.push(string_of("--volumes"));
    assert(r.deep_view() =~= seq!["down"@, "--volumes"@]);
    r
}

/// The message of a failed `docker compose` run of `command`.
pub open spec fn compose_failure_message_of(command: Seq<Seq<char>>) -> Seq<char> {
    "Failed to spawn `docker compose --file - $"@ + crate::compile_utils::join_seqs(command, " "@) + "`"@
}

/// The message of a failed `docker compose` run of `command`.
pub fn compose_failure_message(command: &Vec<String>) -> (r: String)
    ensures
        r@ == compose_failure_message_of(command.deep_view()),
{
    let mut m = string_of("Failed to spawn `docker compose --file - $");
    let joined = crate::compile_utils::join_strings(command, " ");
    m.append(joined.as_str());
    m.append("`");
    m
}

/// The tags of the Bento images built for the SDK version `version`: the
/// agent's and the REST API's.
pub fn bento_image_tags(version: &str) -> (r: (String, String))
    ensures
        r.0@ == "ere-risc0/agent:"@ + version@,
        r.1@ == "ere-risc0/rest_api:"@ + version@,
{
    let mut agent = string_of("ere-risc0/agent:");
    agent.append(version);
    let mut rest = string_of("ere-risc0/rest_api:");
    rest.append(version);
    (agent, rest)
}

/// The arguments of the `git clone` of the Risc0 sources at the release of
/// `version` into `dir`.
pub fn bento_clone_args(version: &str, dir: &str) -> (r: Vec<String>)
    ensures
        r.deep_view() == seq![
            "clone"@,
            "--depth"@,
            "1"@,
            "--branch"@,
            "v"@ + version@,
            "https://github.com/risc0/risc0.git"@,
            dir@,
        ],
{
    let mut branch = string_of("v");
    branch.append(version);
    let mut r: Vec<String> = Vec::new();
    r.push(string_of("clone"));
    r.push(string_of("--depth"));
    r.push(string_of("1"));
    r.push(string_of("--branch"));
    r.push(branch);
    r.push(string_of("https://github.com/risc0/risc0.git"));
    r.push(string_of(dir));
    assert(r.deep_view() =~= seq![
        "clone"@,
        "--depth"@,
        "1"@,
        "--branch"@,
        "v"@ + version@,
        "https://github.com/risc0/risc0.git"@,
        dir@,
    ]);
    r
}

/// The compiler of Risc0 guests with Risc0's own Rust toolchain: its
/// `compile` asks `cargo metadata` for the root package
/// (`require_root_package`), builds it with `risc0_build` and keeps the
/// first guest built (`first_guest`).
pub struct RustRv32imaCustomized;

/// Errors of compiling a Risc0 guest.
#[derive(Debug)]
pub enum CompileError {
    /// An I/O operation failed; `context` says which.
    Io { source: std::io::Error, context: String },
    /// The guest at `path` has no root package.
    MissingPackageName { path: String },
    /// `risc0_build` failed on the crate at `crate_path`; the message says
    /// why.
    Risc0BuildFailure { source: String, crate_path: String },
    /// `risc0_build` succeeded but built no guest.
    Risc0BuildMissingGuest,
}

impl CompileError {
    /// An I/O error with the step at which it happened.
    pub fn io(e: std::io::Error, context: &str) -> (r: Self)
        ensures
            r matches CompileError::Io { source, context: c } && source == e && c@ == context@,
    {
        CompileError::Io { source: e, context: string_of(context) }
    }
}

/// The check made of the metadata of the guest at `guest_directory`: it
/// must have a root package.
pub fn require_root_package(guest_directory: &str, has_root_package: bool) -> (r: Result<(), CompileError>)
    ensures
        has_root_package <==> r is Ok,
        !has_root_package ==> (r matches Err(CompileError::MissingPackageName { path }) && path@
            == guest_directory@),
{
    if has_root_package {
        Ok(())
    } else {
        Err(CompileError::MissingPackageName { path: string_of(guest_directory) })
    }
}

/// The guest kept of those a build produced: the first, or an error where
/// there is none.
pub fn first_guest<T>(guests: Vec<T>) -> (r: Result<T, CompileError>)
    ensures
        guests@.len() > 0 ==> (r matches Ok(g) && g == guests@[0]),
        guests@.len() == 0 ==> (r matches Err(CompileError::Risc0BuildMissingGuest)),
{
    let mut guests = guests;
    if guests.len() == 0 {
        Err(CompileError::Risc0BuildMissingGuest)
    } else {
        Ok(guests.remove(0))
    }
}

/// The resource a zkVM proves on.
#[derive(Clone, Copy, Debug, PartialEq, Eq, Structural)]
pub enum ProverResource {
    Cpu,
    Gpu,
    Network,
}

/// The Risc0 prover that proves.
#[derive(Clone, Copy, Debug, PartialEq, Eq, Structural)]
pub enum Risc0Prover {
    /// The external prover `r0vm`, reached over IPC.
    External,
    /// The local prover that the SDK gives by default (with Metal).
    LocalDefault,
    /// The default prover spawning `r0vm-cuda` workers, one per GPU.
    DefaultCuda,
}

/// The receipt options a proof is made with.
#[derive(Clone, Copy, Debug, PartialEq, Eq, Structural)]
pub enum ProverOptsKind {
    Succinct,
    Groth16,
}

/// The prover for `resource`: the external prover on the CPU; on the GPU,
/// the local default prover with Metal and the CUDA prover otherwise.
/// Network proving is not supported.
pub fn risc0_prover(resource: ProverResource, metal: bool) -> (r: Risc0Prover)
    requires
        resource != ProverResource::Network,
    ensures
        resource == ProverResource::Cpu ==> r == Risc0Prover::External,
        resource == ProverResource::Gpu && metal ==> r == Risc0Prover::LocalDefault,
        resource == ProverResource::Gpu && !metal ==> r == Risc0Prover::DefaultCuda,
{
    match resource {
        ProverResource::Cpu => Risc0Prover::External,
        _ => if metal {
            Risc0Prover::LocalDefault
        } else {
            Risc0Prover::DefaultCuda
        },
    }
}

/// The receipt options for a proof of kind `kind`: succinct for a
/// compressed proof, Groth16 for a Groth16 one.
pub fn prover_opts(kind: ProofKind) -> (r: ProverOptsKind)
    ensures
        kind == ProofKind::Compressed ==> r == ProverOptsKind::Succinct,
        kind == ProofKind::Groth16 ==> r == ProverOptsKind::Groth16,
{
    match kind {
        ProofKind::Compressed => ProverOptsKind::Succinct,
        ProofKind::Groth16 => ProverOptsKind::Groth16,
    }
}

/// The view of an optional setting.
pub open spec fn setting_view(setting: Option<&str>) -> Option<Seq<char>> {
    match setting {
        Some(s) => Some(s@),
        None => None,
    }
}

/// The segment and keccak sizes a Risc0 zkVM is made with, from the values
/// of `RISC0_SEGMENT_PO2` and `RISC0_KECCAK_PO2` when they are set; each
/// must lie in its supported range.
pub fn po2_settings(segment: Option<&str>, keccak: Option<&str>) -> (r: (usize, usize))
    requires
        MIN_SEGMENT_PO2 <= po2_value_of(setting_view(segment), DEFAULT_SEGMENT_PO2) <= MAX_SEGMENT_PO2,
        MIN_KECCAK_PO2 <= po2_value_of(setting_view(keccak), DEFAULT_KECCAK_PO2) <= MAX_KECCAK_PO2,
    ensures
        r.0 == po2_value_of(setting_view(segment), DEFAULT_SEGMENT_PO2),
        r.1 == po2_value_of(setting_view(keccak), DEFAULT_KECCAK_PO2),
{
    (po2_value(segment, DEFAULT_SEGMENT_PO2), po2_value(keccak, DEFAULT_KECCAK_PO2))
}

/// The four bytes of `le32(n)` read back, least significant first, give `n`.
pub proof fn lemma_le32_value(n: u32)
    ensures
        le32(n).len() == 4,
        le32(n)[0] + 256 * le32(n)[1] + 65536 * le32(n)[2] + 16777216 * le32(n)[3] == n,
{
    assert((n % 256) + 256 * ((n / 256) % 256) + 65536 * ((n / 65536) % 256) + 16777216 * ((n / 16777216)
        % 256) == n) by (bit_vector);
    assert(n % 256 < 256 && (n / 256) % 256 < 256 && (n / 65536) % 256 < 256 && (n / 16777216) % 256 < 256);
}

/// Raw bytes reach the guest as a frame: four bytes that read back, least
/// significant first, as the number of bytes, then the bytes themselves. A
/// serialized object reaches it unchanged.
pub proof fn lemma_input_frame(data: Seq<u8>)
    requires
        data.len() <= u32::MAX,
    ensures
        ({
            let s = item_stream(InputItemView { is_bytes: true, data });
            &&& s.len() == 4 + data.len()
            &&& s[0] + 256 * s[1] + 65536 * s[2] + 16777216 * s[3] == data.len()
            &&& s.skip(4) == data
        }),
        item_stream(InputItemView { is_bytes: false, data }) == data,
{
    let n = data.len() as u32;
    assert(n == data.len());
    lemma_le32_value(n);
    let s = le32(n) + data;
    assert(s[0] == le32(n)[0] && s[1] == le32(n)[1] && s[2] == le32(n)[2] && s[3] == le32(n)[3]);
    assert(s.skip(4) =~= data);
}

/// The guest's input stream is the items' contributions one after the
/// other: the stream of two lists of items joined is the two streams
/// joined.
pub proof fn lemma_input_stream_append(a: Seq<InputItemView>, b: Seq<InputItemView>)
    ensures
        input_stream(a + b) == input_stream(a) + input_stream(b),
    decreases b.len(),
{
    if b.len() == 0 {
        assert(a + b =~= a);
        assert(input_stream(a) + input_stream(b) =~= input_stream(a));
    } else {
        assert((a + b).drop_last() =~= a + b.drop_last());
        assert((a + b).last() == b.last());
        lemma_input_stream_append(a, b.drop_last());
        assert(input_stream(a) + (input_stream(b.drop_last()) + item_stream(b.last())) =~= (input_stream(a)
            + input_stream(b.drop_last())) + item_stream(b.last()));
    }
}

} // verus!

//! The zkVMs that the Docker driver supports, their names, image names and
//! server ports.
use crate::text::string_of;
use vstd::prelude::*;

verus! {

/// Offset of the port on which a zkVM's server listens.
pub const ERE_SERVER_PORT_OFFSET: u16 = 4174;

/// A zkVM that the Docker driver can build images for and run.
#[derive(Clone, Copy, Debug, PartialEq, Eq, Structural)]
pub enum ErezkVM {
    Airbender,
    Jolt,
    Miden,
    Nexus,
    OpenVM,
    Pico,
    Risc0,
    SP1,
    Ziren,
    Zisk,
}

/// The zkVM's name, as used in image names and on the command line.
pub open spec fn zkvm_name(z: ErezkVM) -> Seq<char> {
    match z {
        ErezkVM::Airbender => "airbender"@,
        ErezkVM::Jolt => "jolt"@,
        ErezkVM::Miden => "miden"@,
        ErezkVM::Nexus => "nexus"@,
        ErezkVM::OpenVM => "openvm"@,
        ErezkVM::Pico => "pico"@,
        ErezkVM::Risc0 => "risc0"@,
        ErezkVM::SP1 => "sp1"@,
        ErezkVM::Ziren => "ziren"@,
        ErezkVM::Zisk => "zisk"@,
    }
}

/// Position of the zkVM in the declaration order.
pub open spec fn zkvm_index(z: ErezkVM) -> nat {
    match z {
        ErezkVM::Airbender => 0,
        ErezkVM::Jolt => 1,
        ErezkVM::Miden => 2,
        ErezkVM::Nexus => 3,
        ErezkVM::OpenVM => 4,
        ErezkVM::Pico => 5,
        ErezkVM::Risc0 => 6,
        ErezkVM::SP1 => 7,
        ErezkVM::Ziren => 8,
        ErezkVM::Zisk => 9,
    }
}

/// The zkVM whose name is `s`, if any.
pub open spec fn zkvm_of_name(s: Seq<char>) -> Option<ErezkVM> {
    if s == "airbender"@ {
        Some(ErezkVM::Airbender)
    } else if s == "jolt"@ {
        Some(ErezkVM::Jolt)
    } else if s == "miden"@ {
        Some(ErezkVM::Miden)
    } else if s == "nexus"@ {
        Some(ErezkVM::Nexus)
    } else if s == "openvm"@ {
        Some(ErezkVM::OpenVM)
    } else if s == "pico"@ {
        Some(ErezkVM::Pico)
    } else if s == "risc0"@ {
        Some(ErezkVM::Risc0)
    } else if s == "sp1"@ {
        Some(ErezkVM::SP1)
    } else if s == "ziren"@ {
        Some(ErezkVM::Ziren)
    } else if s == "zisk"@ {
        Some(ErezkVM::Zisk)
    } else {
        None
    }
}

/// Whether the zkVM's base image needs the CUDA setup when GPU support is
/// asked for.
pub open spec fn needs_cuda(z: ErezkVM) -> bool {
    z == ErezkVM::Airbender || z == ErezkVM::OpenVM || z == ErezkVM::Risc0 || z == ErezkVM::Zisk
}

/// Image tag `{version}{suffix}`: the suffix is `-cuda` for a GPU image of a
/// zkVM that needs CUDA, empty otherwise.
pub open spec fn image_tag_of(z: ErezkVM, version: Seq<char>, gpu: bool) -> Seq<char> {
    if gpu && needs_cuda(z) {
        version + "-cuda"@
    } else {
        version
    }
}

/// `ere-base:{tag}`.
pub open spec fn base_image_of(z: ErezkVM, version: Seq<char>, gpu: bool) -> Seq<char> {
    "ere-base:"@ + image_tag_of(z, version, gpu)
}

/// `ere-base-{zkvm}:{tag}`.
pub open spec fn base_zkvm_image_of(z: ErezkVM, version: Seq<char>, gpu: bool) -> Seq<char> {
    "ere-base-"@ + zkvm_name(z) + ":"@ + image_tag_of(z, version, gpu)
}

/// `ere-compiler-{zkvm}:{tag}`; the compiler image never has GPU support.
pub open spec fn compiler_zkvm_image_of(z: ErezkVM, version: Seq<char>) -> Seq<char> {
    "ere-compiler-"@ + zkvm_name(z) + ":"@ + image_tag_of(z, version, false)
}

/// `ere-server-{zkvm}:{tag}`.
pub open spec fn server_zkvm_image_of(z: ErezkVM, version: Seq<char>, gpu: bool) -> Seq<char> {
    "ere-server-"@ + zkvm_name(z) + ":"@ + image_tag_of(z, version, gpu)
}

/// The port of the zkVM's server.
pub open spec fn server_port_of(z: ErezkVM) -> nat {
    ERE_SERVER_PORT_OFFSET as nat + zkvm_index(z)
}

impl ErezkVM {
    /// The zkVM's name.
    pub fn as_str(&self) -> (r: &'static str)
        ensures
            r@ == zkvm_name(*self),
    {
        match self {
            ErezkVM::Airbender => "airbender",
            ErezkVM::Jolt => "jolt",
            ErezkVM::Miden => "miden",
            ErezkVM::Nexus => "nexus",
            ErezkVM::OpenVM => "openvm",
            ErezkVM::Pico => "pico",
            ErezkVM::Risc0 => "risc0",
            ErezkVM::SP1 => "sp1",
            ErezkVM::Ziren => "ziren",
            ErezkVM::Zisk => "zisk",
        }
    }

    /// The zkVM's name, as `Display` writes it.
    pub fn to_string(&self) -> (r: String)
        ensures
            r@ == zkvm_name(*self),
    {
        string_of(self.as_str())
    }

    /// The zkVM named `s`; an error `Unsupported zkvm {s}` for any other
    /// name.
    pub fn from_str(s: &str) -> (r: Result<ErezkVM, String>)
        ensures
            match zkvm_of_name(s@) {
                Some(z) => r == Ok::<ErezkVM, String>(z),
                None => r matches Err(e) && e@ == "Unsupported zkvm "@ + s@,
            },
    {
        let t = string_of(s);
        let all = [
            ErezkVM::Airbender,
            ErezkVM::Jolt,
            ErezkVM::Miden,
            ErezkVM::Nexus,
            ErezkVM::OpenVM,
            ErezkVM::Pico,
            ErezkVM::Risc0,
            ErezkVM::SP1,
            ErezkVM::Ziren,
            ErezkVM::Zisk,
        ];
        let mut i: usize = 0;
        while i < 10
            invariant
                t@ == s@,
                i <= 10,
                all@ == seq![
                    ErezkVM::Airbender,
                    ErezkVM::Jolt,
                    ErezkVM::Miden,
                    ErezkVM::Nexus,
                    ErezkVM::OpenVM,
                    ErezkVM::Pico,
                    ErezkVM::Risc0,
                    ErezkVM::SP1,
                    ErezkVM::Ziren,
                    ErezkVM::Zisk,
                ],
                forall|j: int| 0 <= j < i ==> zkvm_name(#[trigger] all@[j]) != s@,
            decreases 10 - i,
        {
            let z = all[i];
            let name = string_of(z.as_str());
            if name == t {
                proof {
                    lemma_name_determines(s@, z);
                }
                return Ok(z);
            }
            i = i + 1;
        }
        proof {
            lemma_unknown_name(s@, all@);
        }
        let mut e = string_of("Unsupported zkvm ");
        e.append(s);
        Err(e)
    }

    /// Tag of the zkVM's images: `{version}{suffix}`.
    pub fn image_tag(&self, version: &str, gpu: bool) -> (r: String)
        ensures
            r@ == image_tag_of(*self, version@, gpu),
    {
        let mut t = string_of(version);
        let cuda = match self {
            ErezkVM::Airbender | ErezkVM::OpenVM | ErezkVM::Risc0 | ErezkVM::Zisk => gpu,
            _ => false,
        };
        if cuda {
            t.append("-cuda");
        }
        t
    }

    /// `ere-base:{tag}`: the image with the common dependencies.
    pub fn base_image(&self, version: &str, gpu: bool) -> (r: String)
        ensures
            r@ == base_image_of(*self, version@, gpu),
    {
        let mut s = string_of("ere-base:");
        let t = self.image_tag(version, gpu);
        s.append(t.as_str());
        s
    }

    /// `ere-base-{zkvm}:{tag}`: the image with the zkVM's SDK.
    pub fn base_zkvm_image(&self, version: &str, gpu: bool) -> (r: String)
        ensures
            r@ == base_zkvm_image_of(*self, version@, gpu),
    {
        let mut s = string_of("ere-base-");
        s.append(self.as_str());
        s.append(":");
        let t = self.image_tag(version, gpu);
        s.append(t.as_str());
        s
    }

    /// `ere-compiler-{zkvm}:{tag}`: the image that compiles guest programs.
    pub fn compiler_zkvm_image(&self, version: &str) -> (r: String)
        ensures
            r@ == compiler_zkvm_image_of(*self, version@),
    {
        let mut s = string_of("ere-compiler-");
        s.append(self.as_str());
        s.append(":");
        let t = self.image_tag(version, false);
        s.append(t.as_str());
        s
    }

    /// `ere-server-{zkvm}:{tag}`: the image that serves the zkVM.
    pub fn server_zkvm_image(&self, version: &str, gpu: bool) -> (r: String)
        ensures
            r@ == server_zkvm_image_of(*self, version@, gpu),
    {
        let mut s = string_of("ere-server-");
        s.append(self.as_str());
        s.append(":");
        let t = self.image_tag(version, gpu);
        s.append(t.as_str());
        s
    }

    /// The port of the zkVM's server: the offset plus the zkVM's position.
    pub fn server_port(&self) -> (r: u16)
        ensures
            r == server_port_of(*self),
    {
        let index: u16 = match self {
            ErezkVM::Airbender => 0,
            ErezkVM::Jolt => 1,
            ErezkVM::Miden => 2,
            ErezkVM::Nexus => 3,
            ErezkVM::OpenVM => 4,
            ErezkVM::Pico => 5,
            ErezkVM::Risc0 => 6,
            ErezkVM::SP1 => 7,
            ErezkVM::Ziren => 8,
            ErezkVM::Zisk => 9,
        };
        ERE_SERVER_PORT_OFFSET + index
    }
}

/// A name determines the zkVM it belongs to.
proof fn lemma_name_determines(s: Seq<char>, z: ErezkVM)
    requires
        zkvm_name(z) == s,
    ensures
        zkvm_of_name(s) == Some(z),
{
    lemma_names_distinct();
    assert(zkvm_name(ErezkVM::Airbender) == s ==> ErezkVM::Airbender == z);
    assert(zkvm_name(ErezkVM::Jolt) == s ==> ErezkVM::Jolt == z);
    assert(zkvm_name(ErezkVM::Miden) == s ==> ErezkVM::Miden == z);
    assert(zkvm_name(ErezkVM::Nexus) == s ==> ErezkVM::Nexus == z);
    assert(zkvm_name(ErezkVM::OpenVM) == s ==> ErezkVM::OpenVM == z);
    assert(zkvm_name(ErezkVM::Pico) == s ==> ErezkVM::Pico == z);
    assert(zkvm_name(ErezkVM::Risc0) == s ==> ErezkVM::Risc0 == z);
    assert(zkvm_name(ErezkVM::SP1) == s ==> ErezkVM::SP1 == z);
    assert(zkvm_name(ErezkVM::Ziren) == s ==> ErezkVM::Ziren == z);
    assert(zkvm_name(ErezkVM::Zisk) == s ==> ErezkVM::Zisk == z);
}

/// No two zkVMs share a name.
proof fn lemma_names_distinct()
    ensures
        forall|a: ErezkVM, b: ErezkVM| zkvm_name(a) == zkvm_name(b) ==> a == b,
{
    reveal_strlit("airbender");
    reveal_strlit("jolt");
    reveal_strlit("miden");
    reveal_strlit("nexus");
    reveal_strlit("openvm");
    reveal_strlit("pico");
    reveal_strlit("risc0");
    reveal_strlit("sp1");
    reveal_strlit("ziren");
    reveal_strlit("zisk");
    assert forall|a: ErezkVM, b: ErezkVM| zkvm_name(a) == zkvm_name(b) implies a == b by {
        if a != b {
            let x = zkvm_name(a);
            let y = zkvm_name(b);
            if x.len() == y.len() {
                assert(x[0] != y[0] || x[1] != y[1] || x[x.len() - 1] != y[y.len() - 1]);
            }
        }
    }
}

/// A string that is no zkVM's name maps to none.
proof fn lemma_unknown_name(s: Seq<char>, all: Seq<ErezkVM>)
    requires
        all == seq![
            ErezkVM::Airbender,
            ErezkVM::Jolt,
            ErezkVM::Miden,
            ErezkVM::Nexus,
            ErezkVM::OpenVM,
            ErezkVM::Pico,
            ErezkVM::Risc0,
            ErezkVM::SP1,
            ErezkVM::Ziren,
            ErezkVM::Zisk,
        ],
        forall|j: int| 0 <= j < 10 ==> zkvm_name(#[trigger] all[j]) != s,
    ensures
        zkvm_of_name(s) == None::<ErezkVM>,
{
    assert(zkvm_name(all[0]) != s);
    assert(zkvm_name(all[1]) != s);
    assert(zkvm_name(all[2]) != s);
    assert(zkvm_name(all[3]) != s);
    assert(zkvm_name(all[4]) != s);
    assert(zkvm_name(all[5]) != s);
    assert(zkvm_name(all[6]) != s);
    assert(zkvm_name(all[7]) != s);
    assert(zkvm_name(all[8]) != s);
    assert(zkvm_name(all[9]) != s);
}

/// Reading back a zkVM's name gives the zkVM: `from_str(as_str(z)) == Ok(z)`.
pub proof fn lemma_name_roundtrip(z: ErezkVM)
    ensures
        zkvm_of_name(zkvm_name(z)) == Some(z),
{
    lemma_name_determines(zkvm_name(z), z);
}

/// Distinct zkVMs have distinct names and distinct server ports.
pub proof fn lemma_zkvms_distinguishable(a: ErezkVM, b: ErezkVM)
    requires
        a != b,
    ensures
        zkvm_name(a) != zkvm_name(b),
        server_port_of(a) != server_port_of(b),
{
    lemma_names_distinct();
}

/// Only the images of Airbender, OpenVM, Risc0 and ZisK built for GPU
/// proving carry the `-cuda` suffix: their tag is `{version}-cuda`, and every
/// other image's tag is the version itself; the compiler image never has
/// the suffix.
pub proof fn lemma_cuda_tags(z: ErezkVM, version: Seq<char>, gpu: bool)
    ensures
        gpu && (z == ErezkVM::Airbender || z == ErezkVM::OpenVM || z == ErezkVM::Risc0 || z == ErezkVM::Zisk)
            ==> image_tag_of(z, version, gpu) == version + "-cuda"@,
        !(gpu && (z == ErezkVM::Airbender || z == ErezkVM::OpenVM || z == ErezkVM::Risc0 || z
            == ErezkVM::Zisk)) ==> image_tag_of(z, version, gpu) == version,
        compiler_zkvm_image_of(z, version) == "ere-compiler-"@ + zkvm_name(z) + ":"@ + version,
{
}

/// The server ports are the ten consecutive ports from the offset, in the
/// order of the list of zkVMs: Airbender listens at the offset, ZisK at the
/// offset plus nine.
pub proof fn lemma_server_ports(z: ErezkVM)
    ensures
        ERE_SERVER_PORT_OFFSET <= server_port_of(z) < ERE_SERVER_PORT_OFFSET + 10,
        server_port_of(ErezkVM::Airbender) == ERE_SERVER_PORT_OFFSET,
        server_port_of(ErezkVM::Risc0) == ERE_SERVER_PORT_OFFSET + 6,
        server_port_of(ErezkVM::Zisk) == ERE_SERVER_PORT_OFFSET + 9,
{
}

} // verus!

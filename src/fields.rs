//! Field generators: names, e-mail address, IP address, hostname, operating
//! system and CPU, each drawn from the page's generator in a fixed number of
//! draws.

use crate::rng::draw_range;
use crate::text::{decimal, decimal_of};
use rand_xorshift::XorShiftRng;
use vstd::prelude::*;

verus! {

/// Typical e-mail address patterns.
pub enum EmailPattern {
    /// flast@example.com
    FLAST,
    /// first.last@example.com
    DOTSEPARATED,
    /// firstlast@example.com
    COLLATED,
    /// last@example.com
    LAST,
    /// first_last@example.com
    SNAKE,
    /// f_last@example.com
    FLASTSNAKE,
    /// firstl@example.com
    FIRSTL,
}

/// The pattern at position `i` of the list above.
pub open spec fn pattern_at(i: nat) -> EmailPattern {
    if i == 0 {
        EmailPattern::FLAST
    } else if i == 1 {
        EmailPattern::DOTSEPARATED
    } else if i == 2 {
        EmailPattern::COLLATED
    } else if i == 3 {
        EmailPattern::LAST
    } else if i == 4 {
        EmailPattern::SNAKE
    } else if i == 5 {
        EmailPattern::FLASTSNAKE
    } else {
        EmailPattern::FIRSTL
    }
}

/// Whether the pattern writes the initial of the first name.
pub open spec fn needs_first_initial(p: EmailPattern) -> bool {
    p is FLAST || p is FLASTSNAKE
}

/// Whether the pattern writes the initial of the last name.
pub open spec fn needs_last_initial(p: EmailPattern) -> bool {
    p is FIRSTL
}

/// The address that pattern `p` gives for a name at a domain.
pub open spec fn email_address(
    p: EmailPattern,
    first: Seq<char>,
    last: Seq<char>,
    domain: Seq<char>,
) -> Seq<char> {
    let local = match p {
        EmailPattern::FLAST => first.take(1) + last,
        EmailPattern::DOTSEPARATED => first + seq!['.'] + last,
        EmailPattern::COLLATED => first + last,
        EmailPattern::LAST => last,
        EmailPattern::SNAKE => first + seq!['_'] + last,
        EmailPattern::FLASTSNAKE => first.take(1) + seq!['_'] + last,
        EmailPattern::FIRSTL => first + last.take(1),
    };
    local + seq!['@'] + domain
}

fn initial(s: &String) -> (r: &str)
    requires
        s@.len() > 0,
    ensures
        r@ == s@.take(1),
{
    s.as_str().substring_char(0, 1)
}

impl EmailPattern {
    /// Draws one of the seven patterns, uniformly.
    pub fn sample(rng: &mut XorShiftRng) -> (r: EmailPattern)
        ensures
            exists|i: nat| i < 7 && r == pattern_at(i),
    {
        EmailPattern::from_index(draw_range(rng, 0, 7))
    }

    /// The pattern at position `i` of the list.
    pub fn from_index(i: u64) -> (r: EmailPattern)
        requires
            i < 7,
        ensures
            r == pattern_at(i as nat),
    {
        match i {
            0 => EmailPattern::FLAST,
            1 => EmailPattern::DOTSEPARATED,
            2 => EmailPattern::COLLATED,
            3 => EmailPattern::LAST,
            4 => EmailPattern::SNAKE,
            5 => EmailPattern::FLASTSNAKE,
            _ => EmailPattern::FIRSTL,
        }
    }

    /// The e-mail address this pattern derives from a first and last name.
    pub fn for_name(&self, first: &String, last: &String, domain: &String) -> (r: String)
        requires
            needs_first_initial(*self) ==> first@.len() > 0,
            needs_last_initial(*self) ==> last@.len() > 0,
        ensures
            r@ == email_address(*self, first@, last@, domain@),
    {
        let mut out = String::new();
        match self {
            EmailPattern::FLAST => {
                out.append(initial(first));
                out.append(last.as_str());
            },
            EmailPattern::DOTSEPARATED => {
                out.append(first.as_str());
                proof {
                    reveal_strlit(".");
                }
                out.append(".");
                out.append(last.as_str());
            },
            EmailPattern::COLLATED => {
                out.append(first.as_str());
                out.append(last.as_str());
            },
            EmailPattern::LAST => {
                out.append(last.as_str());
            },
            EmailPattern::SNAKE => {
                out.append(first.as_str());
                proof {
                    reveal_strlit("_");
                }
                out.append("_");
                out.append(last.as_str());
            },
            EmailPattern::FLASTSNAKE => {
                out.append(initial(first));
                proof {
                    reveal_strlit("_");
                }
                out.append("_");
                out.append(last.as_str());
            },
            EmailPattern::FIRSTL => {
                out.append(first.as_str());
                out.append(initial(last));
            },
        }
        proof {
            reveal_strlit("@");
        }
        out.append("@");
        out.append(domain.as_str());
        proof {
            assert(out@ =~= email_address(*self, first@, last@, domain@));
        }
        out
    }
}

/// The text `192.168.<subnet>.<host>`.
pub open spec fn ip_text(subnet: nat, host: nat) -> Seq<char> {
    seq!['1', '9', '2', '.', '1', '6', '8', '.'] + decimal_of(subnet) + seq!['.'] + decimal_of(
        host,
    )
}

/// A private-range IP address.
pub struct Ip {
    pub address: String,
}

impl Ip {
    /// Draws an address `192.168.x.y` with `x` in `[0, 128)` and `y` in
    /// `[1, 255)`.
    pub fn sample(rng: &mut XorShiftRng) -> (r: Ip)
        ensures
            exists|x: nat, y: nat| x < 128 && 1 <= y < 255 && r.address@ == ip_text(x, y),
    {
        let subnet = draw_range(rng, 0, 128);
        let host = draw_range(rng, 1, 255);
        Ip::of(subnet, host)
    }

    /// The address `192.168.<subnet>.<host>`.
    pub fn of(subnet: u64, host: u64) -> (r: Ip)
        ensures
            r.address@ == ip_text(subnet as nat, host as nat),
    {
        let mut out = String::new();
        proof {
            reveal_strlit("192.168.");
            reveal_strlit(".");
        }
        out.append("192.168.");
        let s = decimal(subnet);
        out.append(s.as_str());
        out.append(".");
        let h = decimal(host);
        out.append(h.as_str());
        assert(out@ =~= ip_text(subnet as nat, host as nat));
        Ip { address: out }
    }
}

/// The number of CPU descriptions in the table.
pub const CPU_COUNT: u64 = 24;

/// The CPU description at position `i` of the table.
pub open spec fn cpu_table(i: u64) -> Seq<char> {
    if i == 0 {
        "Intel(R) Core(TM) i7-4770 CPU @ 3.40GHz"@
    } else if i == 1 {
        "Intel(R) Core(TM) i5-5200U CPU @ 2.20GHz"@
    } else if i == 2 {
        "Intel(R) Celeron(R) CPU N2807 @ 1.58GHz"@
    } else if i == 3 {
        "Intel(R) Core(TM) i7-4790T CPU @ 2.70GHz"@
    } else if i == 4 {
        "Intel(R) Core(TM) i3-8300 CPU @ 3.70GHz"@
    } else if i == 5 {
        "Intel(R) Xeon(R) CPU E5-2640 0 @ 2.50GHz"@
    } else if i == 6 {
        "Intel(R) Core(TM) i7-4790S CPU @ 3.20GHz"@
    } else if i == 7 {
        "Pentium(R) Dual-Core CPU E6000 @ 3.46GHz"@
    } else if i == 8 {
        "AMD Ryzen Threadripper 3970X 32-Core Processor"@
    } else if i == 9 {
        "AMD Ryzen 5 3600X 6-Core Processor"@
    } else if i == 10 {
        "AMD Ryzen 5 PRO 2500U w/ Radeon Vega Mobile Gfx"@
    } else if i == 11 {
        "AMD Ryzen 3 1300X Quad-Core Processor"@
    } else if i == 12 {
        "AMD Ryzen 7 PRO 3700U w/ Radeon Vega Mobile Gfx"@
    } else if i == 13 {
        "Intel(R) Xeon(R) CPU E3-1535M v5 @ 2.90GHz"@
    } else if i == 14 {
        "Intel(R) Core(TM) i7-5950HQ CPU @ 2.90GHz"@
    } else if i == 15 {
        "Intel(R) Xeon(R) CPU E3-1230 v6 @ 3.50GHz"@
    } else if i == 16 {
        "Intel(R) Xeon(R) CPU E5-4650 0 @ 2.70GHz"@
    } else if i == 17 {
        "Intel(R) Core(TM) i5-1035G1 CPU @ 1.00GHz"@
    } else if i == 18 {
        "AMD Ryzen 3 4300U with Radeon Graphics"@
    } else if i == 19 {
        "Intel(R) Core(TM) i5-8257U CPU @ 1.40GHz"@
    } else if i == 20 {
        "Intel(R) Xeon(R) CPU E5-1660 0 @ 3.30GHz"@
    } else if i == 21 {
        "Intel(R) Xeon(R) CPU E3-1275 v6 @ 3.80GHz"@
    } else if i == 22 {
        "AMD Ryzen 5 PRO 2400G with Radeon Vega Graphics"@
    } else {
        "AMD Athlon(tm) II X4 640 Processor"@
    }
}

/// Looks up the CPU description at position `i`.
pub fn cpu_name(i: u64) -> (r: &'static str)
    requires
        i < CPU_COUNT,
    ensures
        r@ == cpu_table(i),
{
    match i {
        0 => "Intel(R) Core(TM) i7-4770 CPU @ 3.40GHz",
        1 => "Intel(R) Core(TM) i5-5200U CPU @ 2.20GHz",
        2 => "Intel(R) Celeron(R) CPU N2807 @ 1.58GHz",
        3 => "Intel(R) Core(TM) i7-4790T CPU @ 2.70GHz",
        4 => "Intel(R) Core(TM) i3-8300 CPU @ 3.70GHz",
        5 => "Intel(R) Xeon(R) CPU E5-2640 0 @ 2.50GHz",
        6 => "Intel(R) Core(TM) i7-4790S CPU @ 3.20GHz",
        7 => "Pentium(R) Dual-Core CPU E6000 @ 3.46GHz",
        8 => "AMD Ryzen Threadripper 3970X 32-Core Processor",
        9 => "AMD Ryzen 5 3600X 6-Core Processor",
        10 => "AMD Ryzen 5 PRO 2500U w/ Radeon Vega Mobile Gfx",
        11 => "AMD Ryzen 3 1300X Quad-Core Processor",
        12 => "AMD Ryzen 7 PRO 3700U w/ Radeon Vega Mobile Gfx",
        13 => "Intel(R) Xeon(R) CPU E3-1535M v5 @ 2.90GHz",
        14 => "Intel(R) Core(TM) i7-5950HQ CPU @ 2.90GHz",
        15 => "Intel(R) Xeon(R) CPU E3-1230 v6 @ 3.50GHz",
        16 => "Intel(R) Xeon(R) CPU E5-4650 0 @ 2.70GHz",
        17 => "Intel(R) Core(TM) i5-1035G1 CPU @ 1.00GHz",
        18 => "AMD Ryzen 3 4300U with Radeon Graphics",
        19 => "Intel(R) Core(TM) i5-8257U CPU @ 1.40GHz",
        20 => "Intel(R) Xeon(R) CPU E5-1660 0 @ 3.30GHz",
        21 => "Intel(R) Xeon(R) CPU E3-1275 v6 @ 3.80GHz",
        22 => "AMD Ryzen 5 PRO 2400G with Radeon Vega Graphics",
        _ => "AMD Athlon(tm) II X4 640 Processor",
    }
}

/// A CPU description.
pub struct Cpu {
    pub name: String,
}

impl Cpu {
    /// Draws a CPU description from the table, in one draw.
    pub fn sample(rng: &mut XorShiftRng) -> (r: Cpu)
        ensures
            exists|i: u64| i < CPU_COUNT && r.name@ == #[trigger] cpu_table(i),
    {
        Cpu::from_index(draw_range(rng, 0, CPU_COUNT))
    }

    /// The CPU at position `i` of the table.
    pub fn from_index(i: u64) -> (r: Cpu)
        requires
            i < CPU_COUNT,
        ensures
            r.name@ == cpu_table(i),
    {
        Cpu { name: String::from_str(cpu_name(i)) }
    }
}

/// The number of operating system descriptions in the table.
pub const OS_COUNT: u64 = 13;

/// The operating system description at position `i` of the table.
pub open spec fn os_table(i: u64) -> Seq<char> {
    if i == 0 {
        "Arch Linux; 5.6.14-arch1-1"@
    } else if i == 1 {
        "Ubuntu 16.04.6; 4.4.0-13.29~14.04.1; "@
    } else if i == 2 {
        "Ubuntu 18.04.4; 4.15.0-102.103"@
    } else if i == 3 {
        "Ubuntu 19.10; 5.3.0-56.50"@
    } else if i == 4 {
        "Ubuntu 20.04; 5.4.0-34.38"@
    } else if i == 5 {
        "Fedora release 31 (Thirty One); 5.3.7-301 "@
    } else if i == 6 {
        "Red Hat Enterprise Linux release 8.0 Beta (Ootpa); 4.18.0-80"@
    } else if i == 7 {
        "CentOS Linux release 7.6.1810 (Core); 3.10.0-957"@
    } else if i == 8 {
        "Microsoft Windows XP Professional; 5.1.2600 Service Pack 2 Build 2600"@
    } else if i == 9 {
        "Microsoft Windows 7 Ultimate; 6.1.7600 N/A Build 7600"@
    } else if i == 10 {
        "Microsoft Windows 7 Enterprise;  6.1.7601 Service Pack 1 Build 7601"@
    } else if i == 11 {
        "Microsoft Windows Server 2008 R2 Enterprise; 6.1.7600 N/A Build 7600"@
    } else {
        "Microsoft Windows 10 Pro; 10.0.18363 N/A Build 18363"@
    }
}

/// Looks up the operating system description at position `i`.
pub fn os_name(i: u64) -> (r: &'static str)
    requires
        i < OS_COUNT,
    ensures
        r@ == os_table(i),
{
    match i {
        0 => "Arch Linux; 5.6.14-arch1-1",
        1 => "Ubuntu 16.04.6; 4.4.0-13.29~14.04.1; ",
        2 => "Ubuntu 18.04.4; 4.15.0-102.103",
        3 => "Ubuntu 19.10; 5.3.0-56.50",
        4 => "Ubuntu 20.04; 5.4.0-34.38",
        5 => "Fedora release 31 (Thirty One); 5.3.7-301 ",
        6 => "Red Hat Enterprise Linux release 8.0 Beta (Ootpa); 4.18.0-80",
        7 => "CentOS Linux release 7.6.1810 (Core); 3.10.0-957",
        8 => "Microsoft Windows XP Professional; 5.1.2600 Service Pack 2 Build 2600",
        9 => "Microsoft Windows 7 Ultimate; 6.1.7600 N/A Build 7600",
        10 => "Microsoft Windows 7 Enterprise;  6.1.7601 Service Pack 1 Build 7601",
        11 => "Microsoft Windows Server 2008 R2 Enterprise; 6.1.7600 N/A Build 7600",
        _ => "Microsoft Windows 10 Pro; 10.0.18363 N/A Build 18363",
    }
}

/// An operating system description.
pub struct OperatingSystem {
    pub name: String,
}

impl OperatingSystem {
    /// Draws an operating system description from the table, in one draw.
    pub fn sample(rng: &mut XorShiftRng) -> (r: OperatingSystem)
        ensures
            exists|i: u64| i < OS_COUNT && r.name@ == #[trigger] os_table(i),
    {
        OperatingSystem::from_index(draw_range(rng, 0, OS_COUNT))
    }

    /// The operating system at position `i` of the table.
    pub fn from_index(i: u64) -> (r: OperatingSystem)
        requires
            i < OS_COUNT,
        ensures
            r.name@ == os_table(i),
    {
        OperatingSystem { name: String::from_str(os_name(i)) }
    }
}

/// The number of first names in the table.
pub const FIRST_NAME_COUNT: u64 = 16;

/// The first name at position `i` of the table.
pub open spec fn first_name_table(i: u64) -> Seq<char> {
    if i == 0 {
        "Anna"@
    } else if i == 1 {
        "Ben"@
    } else if i == 2 {
        "Clara"@
    } else if i == 3 {
        "David"@
    } else if i == 4 {
        "Emma"@
    } else if i == 5 {
        "Felix"@
    } else if i == 6 {
        "Greta"@
    } else if i == 7 {
        "Hannes"@
    } else if i == 8 {
        "Ida"@
    } else if i == 9 {
        "Jonas"@
    } else if i == 10 {
        "Klara"@
    } else if i == 11 {
        "Lukas"@
    } else if i == 12 {
        "Mia"@
    } else if i == 13 {
        "Noah"@
    } else if i == 14 {
        "Olivia"@
    } else {
        "Paul"@
    }
}

/// Looks up the first name at position `i`; none is empty.
pub fn first_name(i: u64) -> (r: &'static str)
    requires
        i < FIRST_NAME_COUNT,
    ensures
        r@ == first_name_table(i),
        r@.len() > 0,
{
    let r = match i {
        0 => "Anna",
        1 => "Ben",
        2 => "Clara",
        3 => "David",
        4 => "Emma",
        5 => "Felix",
        6 => "Greta",
        7 => "Hannes",
        8 => "Ida",
        9 => "Jonas",
        10 => "Klara",
        11 => "Lukas",
        12 => "Mia",
        13 => "Noah",
        14 => "Olivia",
        _ => "Paul",
    };
    proof {
        reveal_strlit("Anna");
        reveal_strlit("Ben");
        reveal_strlit("Clara");
        reveal_strlit("David");
        reveal_strlit("Emma");
        reveal_strlit("Felix");
        reveal_strlit("Greta");
        reveal_strlit("Hannes");
        reveal_strlit("Ida");
        reveal_strlit("Jonas");
        reveal_strlit("Klara");
        reveal_strlit("Lukas");
        reveal_strlit("Mia");
        reveal_strlit("Noah");
        reveal_strlit("Olivia");
        reveal_strlit("Paul");
    }
    r
}

/// The number of last names in the table.
pub const LAST_NAME_COUNT: u64 = 16;

/// The last name at position `i` of the table.
pub open spec fn last_name_table(i: u64) -> Seq<char> {
    if i == 0 {
        "Schmidt"@
    } else if i == 1 {
        "Miller"@
    } else if i == 2 {
        "Novak"@
    } else if i == 3 {
        "Rossi"@
    } else if i == 4 {
        "Garcia"@
    } else if i == 5 {
        "Jensen"@
    } else if i == 6 {
        "Dubois"@
    } else if i == 7 {
        "Kowalski"@
    } else if i == 8 {
        "Silva"@
    } else if i == 9 {
        "Tanaka"@
    } else if i == 10 {
        "Nielsen"@
    } else if i == 11 {
        "Horvat"@
    } else if i == 12 {
        "Becker"@
    } else if i == 13 {
        "Larsen"@
    } else if i == 14 {
        "Moreau"@
    } else {
        "Smith"@
    }
}

/// Looks up the last name at position `i`; none is empty.
pub fn last_name(i: u64) -> (r: &'static str)
    requires
        i < LAST_NAME_COUNT,
    ensures
        r@ == last_name_table(i),
        r@.len() > 0,
{
    let r = match i {
        0 => "Schmidt",
        1 => "Miller",
        2 => "Novak",
        3 => "Rossi",
        4 => "Garcia",
        5 => "Jensen",
        6 => "Dubois",
        7 => "Kowalski",
        8 => "Silva",
        9 => "Tanaka",
        10 => "Nielsen",
        11 => "Horvat",
        12 => "Becker",
        13 => "Larsen",
        14 => "Moreau",
        _ => "Smith",
    };
    proof {
        reveal_strlit("Schmidt");
        reveal_strlit("Miller");
        reveal_strlit("Novak");
        reveal_strlit("Rossi");
        reveal_strlit("Garcia");
        reveal_strlit("Jensen");
        reveal_strlit("Dubois");
        reveal_strlit("Kowalski");
        reveal_strlit("Silva");
        reveal_strlit("Tanaka");
        reveal_strlit("Nielsen");
        reveal_strlit("Horvat");
        reveal_strlit("Becker");
        reveal_strlit("Larsen");
        reveal_strlit("Moreau");
        reveal_strlit("Smith");
    }
    r
}

/// The number of hostname fragments in the table.
pub const HOST_FRAGMENT_COUNT: u64 = 12;

/// The hostname fragment at position `i` of the table.
pub open spec fn host_fragment_table(i: u64) -> Seq<char> {
    if i == 0 {
        "alpha"@
    } else if i == 1 {
        "bravo"@
    } else if i == 2 {
        "cobalt"@
    } else if i == 3 {
        "delta"@
    } else if i == 4 {
        "ember"@
    } else if i == 5 {
        "falcon"@
    } else if i == 6 {
        "granite"@
    } else if i == 7 {
        "harbor"@
    } else if i == 8 {
        "indigo"@
    } else if i == 9 {
        "juniper"@
    } else if i == 10 {
        "krypton"@
    } else {
        "lumen"@
    }
}

/// Looks up the hostname fragment at position `i`.
pub fn host_fragment(i: u64) -> (r: &'static str)
    requires
        i < HOST_FRAGMENT_COUNT,
    ensures
        r@ == host_fragment_table(i),
{
    match i {
        0 => "alpha",
        1 => "bravo",
        2 => "cobalt",
        3 => "delta",
        4 => "ember",
        5 => "falcon",
        6 => "granite",
        7 => "harbor",
        8 => "indigo",
        9 => "juniper",
        10 => "krypton",
        _ => "lumen",
    }
}

/// Draws a first name, in one draw; it is never empty.
pub fn sample_first_name(rng: &mut XorShiftRng) -> (r: String)
    ensures
        exists|i: u64| i < FIRST_NAME_COUNT && r@ == #[trigger] first_name_table(i),
        r@.len() > 0,
{
    let s = first_name(draw_range(rng, 0, FIRST_NAME_COUNT));
    String::from_str(s)
}

/// Draws a last name, in one draw; it is never empty.
pub fn sample_last_name(rng: &mut XorShiftRng) -> (r: String)
    ensures
        exists|i: u64| i < LAST_NAME_COUNT && r@ == #[trigger] last_name_table(i),
        r@.len() > 0,
{
    let s = last_name(draw_range(rng, 0, LAST_NAME_COUNT));
    String::from_str(s)
}

/// The hostname `<fragment a>-<fragment b>-<n>`.
pub open spec fn hostname_text(a: u64, b: u64, n: u64) -> Seq<char> {
    host_fragment_table(a) + seq!['-'] + host_fragment_table(b) + seq!['-'] + decimal_of(n as nat)
}

/// Draws a hostname `<fragment>-<fragment>-<n>` with `n` in `[1, 100)`, in
/// three draws.
pub fn sample_hostname(rng: &mut XorShiftRng) -> (r: String)
    ensures
        exists|a: u64, b: u64, n: u64|
            a < HOST_FRAGMENT_COUNT && b < HOST_FRAGMENT_COUNT && 1 <= n < 100 && r@
                == #[trigger] hostname_text(a, b, n),
{
    let a = draw_range(rng, 0, HOST_FRAGMENT_COUNT);
    let b = draw_range(rng, 0, HOST_FRAGMENT_COUNT);
    let n = draw_range(rng, 1, 100);
    hostname_of(a, b, n)
}

/// The hostname built from fragments `a` and `b` and the number `n`.
pub fn hostname_of(a: u64, b: u64, n: u64) -> (r: String)
    requires
        a < HOST_FRAGMENT_COUNT,
        b < HOST_FRAGMENT_COUNT,
    ensures
        r@ == hostname_text(a, b, n),
{
    let mut out = String::from_str(host_fragment(a));
    proof {
        reveal_strlit("-");
    }
    out.append("-");
    out.append(host_fragment(b));
    out.append("-");
    let d = decimal(n);
    out.append(d.as_str());
    assert(out@ =~= hostname_text(a, b, n));
    out
}

} // verus!

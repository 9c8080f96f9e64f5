//! LaTeX math to Unicode text: command symbols, superscripts and subscripts.
use vstd::prelude::*;

use crate::text::{chars_of, slice_is, string_of};

verus! {

/// Whether `c` has the Unicode `Alphabetic` property.
pub uninterp spec fn alphabetic(c: char) -> bool;

pub assume_specification[ char::is_alphabetic ](c: char) -> (r: bool)
    ensures
        r == alphabetic(c),
;

/// The Unicode symbol that the command `\name` stands for.
pub open spec fn symbol_of(name: Seq<char>) -> Option<Seq<char>> {
    if name == "alpha"@ {
        Some("α"@)
    } else if name == "beta"@ {
        Some("β"@)
    } else if name == "gamma"@ {
        Some("γ"@)
    } else if name == "delta"@ {
        Some("δ"@)
    } else if name == "epsilon"@ {
        Some("ε"@)
    } else if name == "zeta"@ {
        Some("ζ"@)
    } else if name == "eta"@ {
        Some("η"@)
    } else if name == "theta"@ {
        Some("θ"@)
    } else if name == "iota"@ {
        Some("ι"@)
    } else if name == "kappa"@ {
        Some("κ"@)
    } else if name == "lambda"@ {
        Some("λ"@)
    } else if name == "mu"@ {
        Some("μ"@)
    } else if name == "nu"@ {
        Some("ν"@)
    } else if name == "xi"@ {
        Some("ξ"@)
    } else if name == "pi"@ {
        Some("π"@)
    } else if name == "rho"@ {
        Some("ρ"@)
    } else if name == "sigma"@ {
        Some("σ"@)
    } else if name == "tau"@ {
        Some("τ"@)
    } else if name == "upsilon"@ {
        Some("υ"@)
    } else if name == "phi"@ {
        Some("φ"@)
    } else if name == "chi"@ {
        Some("χ"@)
    } else if name == "psi"@ {
        Some("ψ"@)
    } else if name == "omega"@ {
        Some("ω"@)
    } else if name == "Gamma"@ {
        Some("Γ"@)
    } else if name == "Delta"@ {
        Some("Δ"@)
    } else if name == "Theta"@ {
        Some("Θ"@)
    } else if name == "Lambda"@ {
        Some("Λ"@)
    } else if name == "Xi"@ {
        Some("Ξ"@)
    } else if name == "Pi"@ {
        Some("Π"@)
    } else if name == "Sigma"@ {
        Some("Σ"@)
    } else if name == "Phi"@ {
        Some("Φ"@)
    } else if name == "Psi"@ {
        Some("Ψ"@)
    } else if name == "Omega"@ {
        Some("Ω"@)
    } else if name == "sum"@ {
        Some("Σ"@)
    } else if name == "prod"@ {
        Some("Π"@)
    } else if name == "int"@ {
        Some("∫"@)
    } else if name == "oint"@ {
        Some("∮"@)
    } else if name == "partial"@ {
        Some("∂"@)
    } else if name == "nabla"@ {
        Some("∇"@)
    } else if name == "sqrt"@ {
        Some("√"@)
    } else if name == "infty"@ {
        Some("∞"@)
    } else if name == "pm"@ {
        Some("±"@)
    } else if name == "mp"@ {
        Some("∓"@)
    } else if name == "times"@ {
        Some("×"@)
    } else if name == "div"@ {
        Some("÷"@)
    } else if name == "cdot"@ {
        Some("·"@)
    } else if name == "leq"@ {
        Some("≤"@)
    } else if name == "geq"@ {
        Some("≥"@)
    } else if name == "neq"@ {
        Some("≠"@)
    } else if name == "approx"@ {
        Some("≈"@)
    } else if name == "equiv"@ {
        Some("≡"@)
    } else if name == "in"@ {
        Some("∈"@)
    } else if name == "notin"@ {
        Some("∉"@)
    } else if name == "subset"@ {
        Some("⊂"@)
    } else if name == "supset"@ {
        Some("⊃"@)
    } else if name == "cup"@ {
        Some("∪"@)
    } else if name == "cap"@ {
        Some("∩"@)
    } else if name == "emptyset"@ {
        Some("∅"@)
    } else if name == "forall"@ {
        Some("∀"@)
    } else if name == "exists"@ {
        Some("∃"@)
    } else if name == "neg"@ {
        Some("¬"@)
    } else if name == "land"@ {
        Some("∧"@)
    } else if name == "lor"@ {
        Some("∨"@)
    } else if name == "to"@ {
        Some("→"@)
    } else if name == "gets"@ {
        Some("←"@)
    } else if name == "leftrightarrow"@ {
        Some("↔"@)
    } else if name == "Rightarrow"@ {
        Some("⇒"@)
    } else if name == "Leftarrow"@ {
        Some("⇐"@)
    } else if name == "Leftrightarrow"@ {
        Some("⇔"@)
    } else {
        None
    }
}

fn symbol(s: &Vec<char>, from: usize, to: usize) -> (r: Option<&'static str>)
    requires
        from <= to <= s@.len(),
    ensures
        r is Some == symbol_of(s@.subrange(from as int, to as int)) is Some,
        r is Some ==> r->0@ == symbol_of(s@.subrange(from as int, to as int))->0,
{
    if slice_is(s, from, to, "alpha") {
        Some("α")
    } else if slice_is(s, from, to, "beta") {
        Some("β")
    } else if slice_is(s, from, to, "gamma") {
        Some("γ")
    } else if slice_is(s, from, to, "delta") {
        Some("δ")
    } else if slice_is(s, from, to, "epsilon") {
        Some("ε")
    } else if slice_is(s, from, to, "zeta") {
        Some("ζ")
    } else if slice_is(s, from, to, "eta") {
        Some("η")
    } else if slice_is(s, from, to, "theta") {
        Some("θ")
    } else if slice_is(s, from, to, "iota") {
        Some("ι")
    } else if slice_is(s, from, to, "kappa") {
        Some("κ")
    } else if slice_is(s, from, to, "lambda") {
        Some("λ")
    } else if slice_is(s, from, to, "mu") {
        Some("μ")
    } else if slice_is(s, from, to, "nu") {
        Some("ν")
    } else if slice_is(s, from, to, "xi") {
        Some("ξ")
    } else if slice_is(s, from, to, "pi") {
        Some("π")
    } else if slice_is(s, from, to, "rho") {
        Some("ρ")
    } else if slice_is(s, from, to, "sigma") {
        Some("σ")
    } else if slice_is(s, from, to, "tau") {
        Some("τ")
    } else if slice_is(s, from, to, "upsilon") {
        Some("υ")
    } else if slice_is(s, from, to, "phi") {
        Some("φ")
    } else if slice_is(s, from, to, "chi") {
        Some("χ")
    } else if slice_is(s, from, to, "psi") {
        Some("ψ")
    } else if slice_is(s, from, to, "omega") {
        Some("ω")
    } else if slice_is(s, from, to, "Gamma") {
        Some("Γ")
    } else if slice_is(s, from, to, "Delta") {
        Some("Δ")
    } else if slice_is(s, from, to, "Theta") {
        Some("Θ")
    } else if slice_is(s, from, to, "Lambda") {
        Some("Λ")
    } else if slice_is(s, from, to, "Xi") {
        Some("Ξ")
    } else if slice_is(s, from, to, "Pi") {
        Some("Π")
    } else if slice_is(s, from, to, "Sigma") {
        Some("Σ")
    } else if slice_is(s, from, to, "Phi") {
        Some("Φ")
    } else if slice_is(s, from, to, "Psi") {
        Some("Ψ")
    } else if slice_is(s, from, to, "Omega") {
        Some("Ω")
    } else if slice_is(s, from, to, "sum") {
        Some("Σ")
    } else if slice_is(s, from, to, "prod") {
        Some("Π")
    } else if slice_is(s, from, to, "int") {
        Some("∫")
    } else if slice_is(s, from, to, "oint") {
        Some("∮")
    } else if slice_is(s, from, to, "partial") {
        Some("∂")
    } else if slice_is(s, from, to, "nabla") {
        Some("∇")
    } else if slice_is(s, from, to, "sqrt") {
        Some("√")
    } else if slice_is(s, from, to, "infty") {
        Some("∞")
    } else if slice_is(s, from, to, "pm") {
        Some("±")
    } else if slice_is(s, from, to, "mp") {
        Some("∓")
    } else if slice_is(s, from, to, "times") {
        Some("×")
    } else if slice_is(s, from, to, "div") {
        Some("÷")
    } else if slice_is(s, from, to, "cdot") {
        Some("·")
    } else if slice_is(s, from, to, "leq") {
        Some("≤")
    } else if slice_is(s, from, to, "geq") {
        Some("≥")
    } else if slice_is(s, from, to, "neq") {
        Some("≠")
    } else if slice_is(s, from, to, "approx") {
        Some("≈")
    } else if slice_is(s, from, to, "equiv") {
        Some("≡")
    } else if slice_is(s, from, to, "in") {
        Some("∈")
    } else if slice_is(s, from, to, "notin") {
        Some("∉")
    } else if slice_is(s, from, to, "subset") {
        Some("⊂")
    } else if slice_is(s, from, to, "supset") {
        Some("⊃")
    } else if slice_is(s, from, to, "cup") {
        Some("∪")
    } else if slice_is(s, from, to, "cap") {
        Some("∩")
    } else if slice_is(s, from, to, "emptyset") {
        Some("∅")
    } else if slice_is(s, from, to, "forall") {
        Some("∀")
    } else if slice_is(s, from, to, "exists") {
        Some("∃")
    } else if slice_is(s, from, to, "neg") {
        Some("¬")
    } else if slice_is(s, from, to, "land") {
        Some("∧")
    } else if slice_is(s, from, to, "lor") {
        Some("∨")
    } else if slice_is(s, from, to, "to") {
        Some("→")
    } else if slice_is(s, from, to, "gets") {
        Some("←")
    } else if slice_is(s, from, to, "leftrightarrow") {
        Some("↔")
    } else if slice_is(s, from, to, "Rightarrow") {
        Some("⇒")
    } else if slice_is(s, from, to, "Leftarrow") {
        Some("⇐")
    } else if slice_is(s, from, to, "Leftrightarrow") {
        Some("⇔")
    } else {
        None
    }
}

/// The superscript form of `c`, where it has one.
pub open spec fn superscript_of(c: char) -> Option<char> {
    match c {
        '0' => Some('⁰'),
        '1' => Some('¹'),
        '2' => Some('²'),
        '3' => Some('³'),
        '4' => Some('⁴'),
        '5' => Some('⁵'),
        '6' => Some('⁶'),
        '7' => Some('⁷'),
        '8' => Some('⁸'),
        '9' => Some('⁹'),
        '+' => Some('⁺'),
        '-' => Some('⁻'),
        '=' => Some('⁼'),
        '(' => Some('⁽'),
        ')' => Some('⁾'),
        'n' => Some('ⁿ'),
        'i' => Some('ⁱ'),
        'x' => Some('ˣ'),
        _ => None,
    }
}

fn superscript(c: char) -> (r: Option<char>)
    ensures
        r == superscript_of(c),
{
    match c {
        '0' => Some('⁰'),
        '1' => Some('¹'),
        '2' => Some('²'),
        '3' => Some('³'),
        '4' => Some('⁴'),
        '5' => Some('⁵'),
        '6' => Some('⁶'),
        '7' => Some('⁷'),
        '8' => Some('⁸'),
        '9' => Some('⁹'),
        '+' => Some('⁺'),
        '-' => Some('⁻'),
        '=' => Some('⁼'),
        '(' => Some('⁽'),
        ')' => Some('⁾'),
        'n' => Some('ⁿ'),
        'i' => Some('ⁱ'),
        'x' => Some('ˣ'),
        _ => None,
    }
}

/// The subscript form of `c`, where it has one.
pub open spec fn subscript_of(c: char) -> Option<char> {
    match c {
        '0' => Some('₀'),
        '1' => Some('₁'),
        '2' => Some('₂'),
        '3' => Some('₃'),
        '4' => Some('₄'),
        '5' => Some('₅'),
        '6' => Some('₆'),
        '7' => Some('₇'),
        '8' => Some('₈'),
        '9' => Some('₉'),
        '+' => Some('₊'),
        '-' => Some('₋'),
        '=' => Some('₌'),
        '(' => Some('₍'),
        ')' => Some('₎'),
        'a' => Some('ₐ'),
        'e' => Some('ₑ'),
        'i' => Some('ᵢ'),
        'n' => Some('ₙ'),
        'o' => Some('ₒ'),
        'x' => Some('ₓ'),
        _ => None,
    }
}

fn subscript(c: char) -> (r: Option<char>)
    ensures
        r == subscript_of(c),
{
    match c {
        '0' => Some('₀'),
        '1' => Some('₁'),
        '2' => Some('₂'),
        '3' => Some('₃'),
        '4' => Some('₄'),
        '5' => Some('₅'),
        '6' => Some('₆'),
        '7' => Some('₇'),
        '8' => Some('₈'),
        '9' => Some('₉'),
        '+' => Some('₊'),
        '-' => Some('₋'),
        '=' => Some('₌'),
        '(' => Some('₍'),
        ')' => Some('₎'),
        'a' => Some('ₐ'),
        'e' => Some('ₑ'),
        'i' => Some('ᵢ'),
        'n' => Some('ₙ'),
        'o' => Some('ₒ'),
        'x' => Some('ₓ'),
        _ => None,
    }
}

/// The superscript (`sup`) or subscript form of `c`, where it has one.
pub open spec fn script_of(c: char, sup: bool) -> Option<char> {
    if sup {
        superscript_of(c)
    } else {
        subscript_of(c)
    }
}

/// `c` in script form, or `c` itself.
pub open spec fn script_or_self(c: char, sup: bool) -> char {
    match script_of(c, sup) {
        Some(x) => x,
        None => c,
    }
}

/// Each char of `g` in script form where it has one.
pub open spec fn map_script(g: Seq<char>, sup: bool) -> Seq<char>
    decreases g.len(),
{
    if g.len() == 0 {
        Seq::empty()
    } else {
        map_script(g.drop_last(), sup).push(script_or_self(g.last(), sup))
    }
}

/// First offset at or after `i` whose char is not alphabetic, or `s.len()`.
pub open spec fn alpha_end(s: Seq<char>, i: int) -> int
    decreases s.len() - i,
{
    if i < 0 || i >= s.len() {
        s.len() as int
    } else if !alphabetic(s[i]) {
        i
    } else {
        alpha_end(s, i + 1)
    }
}

/// First offset at or after `i` holding `}`, or `s.len()`.
pub open spec fn group_end(s: Seq<char>, i: int) -> int
    decreases s.len() - i,
{
    if i < 0 || i >= s.len() {
        s.len() as int
    } else if s[i] == '}' {
        i
    } else {
        group_end(s, i + 1)
    }
}

/// Past the char at `e` that ended a run, which is consumed with it.
pub open spec fn past(s: Seq<char>, e: int) -> int {
    if e < s.len() {
        e + 1
    } else {
        e
    }
}

/// What the token at offset `i` renders to, and where the next one starts.
/// `\name` gives its symbol (or stays as written); `^x`, `_x`, `^{..}` and
/// `_{..}` give script forms; braces vanish; anything else stays.
pub open spec fn step(s: Seq<char>, i: int) -> (Seq<char>, int) {
    let c = s[i];
    if c == '\\' {
        let e = alpha_end(s, i + 1);
        let name = s.subrange(i + 1, e);
        (
            match symbol_of(name) {
                Some(sym) => sym,
                None => seq!['\\'] + name,
            },
            past(s, e),
        )
    } else if c == '^' || c == '_' {
        let sup = c == '^';
        if i + 1 >= s.len() {
            (Seq::empty(), s.len() as int)
        } else if s[i + 1] == '{' {
            let e = group_end(s, i + 2);
            (map_script(s.subrange(i + 2, e), sup), past(s, e))
        } else {
            (
                match script_of(s[i + 1], sup) {
                    Some(x) => seq![x],
                    None => seq![c, s[i + 1]],
                },
                i + 2,
            )
        }
    } else if c == '{' || c == '}' {
        (Seq::empty(), i + 1)
    } else {
        (seq![c], i + 1)
    }
}

/// The rendering of `s` from offset `i` on.
pub open spec fn render_from(s: Seq<char>, i: int) -> Seq<char>
    decreases s.len() - i,
{
    if i < 0 || i >= s.len() {
        Seq::empty()
    } else {
        let (piece, next) = step(s, i);
        if next <= i || next > s.len() {
            Seq::empty()
        } else {
            piece + render_from(s, next)
        }
    }
}

proof fn lemma_alpha_end(s: Seq<char>, i: int)
    requires
        0 <= i <= s.len(),
    ensures
        i <= alpha_end(s, i) <= s.len(),
    decreases s.len() - i,
{
    if i < s.len() && alphabetic(s[i]) {
        lemma_alpha_end(s, i + 1);
    }
}

proof fn lemma_group_end(s: Seq<char>, i: int)
    requires
        0 <= i <= s.len(),
    ensures
        i <= group_end(s, i) <= s.len(),
    decreases s.len() - i,
{
    if i < s.len() && s[i] != '}' {
        lemma_group_end(s, i + 1);
    }
}

fn scan_alpha(s: &Vec<char>, from: usize) -> (r: usize)
    requires
        from <= s@.len(),
    ensures
        r == alpha_end(s@, from as int),
{
    let mut i = from;
    while i < s.len() && s[i].is_alphabetic()
        invariant
            from <= i <= s@.len(),
            alpha_end(s@, from as int) == alpha_end(s@, i as int),
        decreases s@.len() - i,
    {
        i += 1;
    }
    i
}

fn scan_group(s: &Vec<char>, from: usize) -> (r: usize)
    requires
        from <= s@.len(),
    ensures
        r == group_end(s@, from as int),
{
    let mut i = from;
    while i < s.len() && s[i] != '}'
        invariant
            from <= i <= s@.len(),
            group_end(s@, from as int) == group_end(s@, i as int),
        decreases s@.len() - i,
    {
        i += 1;
    }
    i
}

fn script(c: char, sup: bool) -> (r: Option<char>)
    ensures
        r == script_of(c, sup),
{
    if sup {
        superscript(c)
    } else {
        subscript(c)
    }
}

fn push_scripts(out: &mut String, s: &Vec<char>, from: usize, to: usize, sup: bool)
    requires
        from <= to <= s@.len(),
    ensures
        final(out)@ == old(out)@ + map_script(s@.subrange(from as int, to as int), sup),
{
    let mut i = from;
    while i < to
        invariant
            from <= i <= to <= s@.len(),
            out@ == old(out)@ + map_script(s@.subrange(from as int, i as int), sup),
        decreases to - i,
    {
        let c = s[i];
        match script(c, sup) {
            Some(x) => out.push(x),
            None => out.push(c),
        }
        assert(s@.subrange(from as int, i + 1).drop_last() =~= s@.subrange(from as int, i as int));
        i += 1;
    }
}

/// Renders LaTeX math as Unicode text.
pub struct LatexRenderer;

impl LatexRenderer {
    pub fn new() -> (r: Self) {
        LatexRenderer
    }

    /// `latex` with commands replaced by their symbols and scripts by
    /// Unicode superscript and subscript characters.
    pub fn render(&self, latex: &str) -> (r: String)
        ensures
            r@ == render_from(latex@, 0),
    {
        let s = chars_of(latex);
        let n = s.len();
        let mut out = String::new();
        let mut i: usize = 0;
        while i < n
            invariant
                i <= n == s@.len(),
                s@ == latex@,
                out@ + render_from(s@, i as int) == render_from(s@, 0),
            decreases n - i,
        {
            let c = s[i];
            let ghost before = out@;
            let ghost piece = step(s@, i as int).0;
            let ghost next = step(s@, i as int).1;
            if c == '\\' {
                proof {
                    lemma_alpha_end(s@, i + 1);
                }
                let e = scan_alpha(&s, i + 1);
                match symbol(&s, i + 1, e) {
                    Some(sym) => {
                        out.append(sym);
                    },
                    None => {
                        out.push('\\');
                        let name = string_of(&s, i + 1, e);
                        out.append(name.as_str());
                    },
                }
                i = if e < n { e + 1 } else { e };
            } else if c == '^' || c == '_' {
                let sup = c == '^';
                if i + 1 >= n {
                    i = n;
                } else if s[i + 1] == '{' {
                    proof {
                        lemma_group_end(s@, i + 2);
                    }
                    let e = scan_group(&s, i + 2);
                    push_scripts(&mut out, &s, i + 2, e, sup);
                    i = if e < n { e + 1 } else { e };
                } else {
                    let d = s[i + 1];
                    match script(d, sup) {
                        Some(x) => out.push(x),
                        None => {
                            out.push(c);
                            out.push(d);
                        },
                    }
                    i = i + 2;
                }
            } else if c == '{' || c == '}' {
                i = i + 1;
            } else {
                out.push(c);
                i = i + 1;
            }
            assert(out@ =~= before + piece);
            assert(i == next);
        }
        out
    }
}

impl Default for LatexRenderer {
    fn default() -> (r: Self) {
        LatexRenderer::new()
    }
}

} // verus!

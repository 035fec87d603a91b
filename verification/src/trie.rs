//! The dispatch trie: a fixed-depth binary prefix tree over the eight
//! bits of an opcode byte, holding each defined opcode's metadata and
//! handler tag at its leaf.  Any byte whose path does not end at a
//! marked leaf is an undefined opcode.

use crate::table::{
    entry_of, is_defined_opcode, opcode_entry, opcode_handler, Instruction, Mnemonic, Mode,
};
use vstd::assert_by_contradiction;
use vstd::prelude::*;

verus! {

/// One trie node; the two children follow the opcode's next bit.
pub struct Node {
    is_prefix: bool,
    zero: Option<Box<Node>>,
    one: Option<Box<Node>>,
    instruction: Option<Instruction>,
    function: Option<Mnemonic>,
}

/// The dispatch trie.
pub struct Trie {
    root: Node,
}

/// Whether bit `i` of `b` is set.
spec fn bit_is_set(b: u8, i: u8) -> bool {
    (b >> i) & 1 == 1
}

/// Walks the remaining bits `i..8` of `b` down from `n`, yielding the
/// node the path ends at, if every child along it exists.
spec fn walk(n: Node, b: u8, i: u8) -> Option<Node>
    decreases 8 - i,
{
    if i >= 8 {
        Some(n)
    } else {
        let child = if bit_is_set(b, i) {
            n.one
        } else {
            n.zero
        };
        match child {
            Some(c) => walk(*c, b, (i + 1) as u8),
            None => None,
        }
    }
}

/// A node without children ends no path that still has bits to walk.
proof fn lemma_walk_no_children(n: Node, b: u8, i: u8)
    requires
        i < 8,
        n.zero is None,
        n.one is None,
    ensures
        walk(n, b, i) is None,
{
}

/// Two distinct bytes differ in at least one of their eight bits.
proof fn lemma_bytes_differ(a: u8, b: u8)
    requires
        a != b,
    ensures
        exists|j: u8| j < 8 && bit_is_set(a, j) != bit_is_set(b, j),
{
    assert_by_contradiction!(exists|j: u8| j < 8 && bit_is_set(a, j) != bit_is_set(b, j), {
        assert(bit_is_set(a, 0) == bit_is_set(b, 0));
        assert(bit_is_set(a, 1) == bit_is_set(b, 1));
        assert(bit_is_set(a, 2) == bit_is_set(b, 2));
        assert(bit_is_set(a, 3) == bit_is_set(b, 3));
        assert(bit_is_set(a, 4) == bit_is_set(b, 4));
        assert(bit_is_set(a, 5) == bit_is_set(b, 5));
        assert(bit_is_set(a, 6) == bit_is_set(b, 6));
        assert(bit_is_set(a, 7) == bit_is_set(b, 7));
        assert(a == b) by (bit_vector)
            requires
                bit_is_set(a, 0) == bit_is_set(b, 0),
                bit_is_set(a, 1) == bit_is_set(b, 1),
                bit_is_set(a, 2) == bit_is_set(b, 2),
                bit_is_set(a, 3) == bit_is_set(b, 3),
                bit_is_set(a, 4) == bit_is_set(b, 4),
                bit_is_set(a, 5) == bit_is_set(b, 5),
                bit_is_set(a, 6) == bit_is_set(b, 6),
                bit_is_set(a, 7) == bit_is_set(b, 7),
        ;
    });
}

impl Node {
    /// A fresh node: no children, nothing stored, not a prefix end.
    fn empty() -> (n: Node)
        ensures
            !n.is_prefix,
            n.zero is None,
            n.one is None,
            n.instruction is None,
            n.function is None,
    {
        Node { is_prefix: false, zero: None, one: None, instruction: None, function: None }
    }
}

/// Places `info` and `function` at the leaf for bits `i..8` of `b`,
/// creating nodes along the path as needed.  Every path that differs
/// from `b`'s in some remaining bit is left as it was.
fn insert_at(node: &mut Node, b: u8, i: u8, info: Instruction, function: Option<Mnemonic>)
    requires
        i <= 8,
    ensures
        walk(*final(node), b, i) matches Some(leaf) && leaf.is_prefix && leaf.instruction == Some(
            info,
        ) && leaf.function == function,
        forall|b2: u8|
            (exists|j: u8| i <= j < 8 && bit_is_set(b2, j) != bit_is_set(b, j)) ==> walk(
                *final(node),
                b2,
                i,
            ) == walk(*old(node), b2, i),
    decreases 8 - i,
{
    if i >= 8 {
        node.is_prefix = true;
        node.instruction = Some(info);
        node.function = function;
    } else {
        let bit = (b >> i) & 1;
        let created: bool;
        if bit == 1 {
            if node.one.is_none() {
                node.one = Some(Box::new(Node::empty()));
                created = true;
            } else {
                created = false;
            }
            let ghost mid: Node = *node;
            match &mut node.one {
                Some(c) => {
                    insert_at(&mut **c, b, i + 1, info, function);
                },
                None => {},
            }
            proof {
                lemma_insert_frame(
                    *old(node),
                    mid,
                    *node,
                    *mid.one->0,
                    *node.one->0,
                    b,
                    i,
                    (i + 1) as u8,
                    created,
                );
            }
        } else {
            if node.zero.is_none() {
                node.zero = Some(Box::new(Node::empty()));
                created = true;
            } else {
                created = false;
            }
            let ghost mid: Node = *node;
            match &mut node.zero {
                Some(c) => {
                    insert_at(&mut **c, b, i + 1, info, function);
                },
                None => {},
            }
            proof {
                lemma_insert_frame(
                    *old(node),
                    mid,
                    *node,
                    *mid.zero->0,
                    *node.zero->0,
                    b,
                    i,
                    (i + 1) as u8,
                    created,
                );
            }
        }
    }
}

/// The frame argument for one level of `insert_at`: a path that still
/// differs from `b`'s somewhere in bits `i..8` reads the same through
/// the updated node as through the original.  `c_mid` is the child on
/// `b`'s side before the recursive insert and `c_post` the same child
/// after it.
proof fn lemma_insert_frame(
    orig: Node,
    mid: Node,
    post: Node,
    c_mid: Node,
    c_post: Node,
    b: u8,
    i: u8,
    i1: u8,
    created: bool,
)
    requires
        i < 8,
        i1 == i + 1,
        mid.is_prefix == orig.is_prefix,
        mid.instruction == orig.instruction,
        mid.function == orig.function,
        post.is_prefix == mid.is_prefix,
        post.instruction == mid.instruction,
        post.function == mid.function,
        bit_is_set(b, i) ==> mid.zero == orig.zero && post.zero == mid.zero && (
        mid.one matches Some(c) && *c == c_mid) && (post.one matches Some(c) && *c == c_post) && (
        if created {
            orig.one is None && !c_mid.is_prefix && c_mid.zero is None && c_mid.one is None
        } else {
            mid.one == orig.one
        }),
        !bit_is_set(b, i) ==> mid.one == orig.one && post.one == mid.one && (
        mid.zero matches Some(c) && *c == c_mid) && (post.zero matches Some(c) && *c == c_post)
            && (if created {
            orig.zero is None && !c_mid.is_prefix && c_mid.zero is None && c_mid.one is None
        } else {
            mid.zero == orig.zero
        }),
        forall|b2: u8|
            (exists|j: u8| i1 <= j < 8 && bit_is_set(b2, j) != bit_is_set(b, j)) ==> walk(
                c_post,
                b2,
                i1,
            ) == walk(c_mid, b2, i1),
    ensures
        forall|b2: u8|
            (exists|j: u8| i <= j < 8 && bit_is_set(b2, j) != bit_is_set(b, j)) ==> walk(
                post,
                b2,
                i,
            ) == walk(orig, b2, i),
{
    assert forall|b2: u8|
        (exists|j: u8| i <= j < 8 && bit_is_set(b2, j) != bit_is_set(b, j)) implies walk(
        post,
        b2,
        i,
    ) == walk(orig, b2, i) by {
        let j = choose|j: u8| i <= j < 8 && bit_is_set(b2, j) != bit_is_set(b, j);
        if bit_is_set(b2, i) == bit_is_set(b, i) {
            // `b2` follows the same child as `b`, so it must still
            // differ somewhere below this level.
            assert(j != i);
            assert(i1 <= j < 8 && bit_is_set(b2, j) != bit_is_set(b, j));
            assert(walk(post, b2, i) == walk(c_post, b2, i1));
            assert(walk(c_post, b2, i1) == walk(c_mid, b2, i1));
            if created {
                // The walk through the original stops at the missing
                // child; the fresh subtree holds nothing off `b`'s path.
                lemma_walk_no_children(c_mid, b2, i1);
                assert(walk(orig, b2, i) is None);
            } else {
                assert(walk(orig, b2, i) == walk(c_mid, b2, i1));
            }
        } else {
            // `b2` follows the other child, which was never touched.
            assert(walk(post, b2, i) == walk(orig, b2, i));
        }
    }
}

impl Trie {
    /// Whether the path of `b` ends at a marked leaf.
    pub closed spec fn spec_contains(self, b: u8) -> bool {
        match walk(self.root, b, 0) {
            Some(n) => n.is_prefix,
            None => false,
        }
    }

    /// The metadata stored for `b`, if any.
    pub closed spec fn spec_instruction(self, b: u8) -> Option<Instruction> {
        match walk(self.root, b, 0) {
            Some(n) => n.instruction,
            None => None,
        }
    }

    /// The handler tag stored for `b`, if any.
    pub closed spec fn spec_function(self, b: u8) -> Option<Mnemonic> {
        match walk(self.root, b, 0) {
            Some(n) => n.function,
            None => None,
        }
    }

    /// Creates an empty trie: no opcode is defined yet.
    pub fn new() -> (t: Trie)
        ensures
            forall|b: u8|
                #![trigger t.spec_contains(b)]
                #![trigger t.spec_instruction(b)]
                #![trigger t.spec_function(b)]
                !t.spec_contains(b) && t.spec_instruction(b) is None && t.spec_function(b) is None,
    {
        let t = Trie { root: Node::empty() };
        proof {
            assert forall|b: u8|
                !t.spec_contains(b) && t.spec_instruction(b) is None && t.spec_function(
                    b,
                ) is None by {
                lemma_walk_no_children(t.root, b, 0);
            }
        }
        t
    }

    /// Inserts one opcode's metadata and handler, walking one trie
    /// level per bit.  Every other opcode's entry is untouched; a
    /// repeated insert overwrites.
    pub fn insert(&mut self, instruction: &u8, info: Instruction, function: Option<Mnemonic>)
        ensures
            final(self).spec_contains(*instruction),
            final(self).spec_instruction(*instruction) == Some(info),
            final(self).spec_function(*instruction) == function,
            forall|b2: u8|
                b2 != *instruction ==> final(self).spec_contains(b2) == old(self).spec_contains(b2)
                    && final(self).spec_instruction(b2) == old(self).spec_instruction(b2)
                    && final(self).spec_function(b2) == old(self).spec_function(b2),
    {
        let b = *instruction;
        insert_at(&mut self.root, b, 0, info, function);
        proof {
            assert forall|b2: u8| b2 != b implies walk(self.root, b2, 0) == walk(
                old(self).root,
                b2,
                0,
            ) by {
                lemma_bytes_differ(b2, b);
            }
        }
    }

    /// Whether `instruction` is a defined opcode in this trie.
    pub fn contains(&self, instruction: u8) -> (r: bool)
        ensures
            r == self.spec_contains(instruction),
    {
        let mut current_node: &Node = &self.root;
        let mut i: u8 = 0;
        while i < 8
            invariant
                i <= 8,
                walk(self.root, instruction, 0) == walk(*current_node, instruction, i),
            decreases 8 - i,
        {
            let bit = (instruction >> i) & 1;
            let child = if bit == 1 {
                &current_node.one
            } else {
                &current_node.zero
            };
            match child {
                Some(node) => {
                    current_node = &**node;
                },
                None => {
                    return false;
                },
            }
            i = i + 1;
        }
        current_node.is_prefix
    }

    /// The metadata record for `instruction`, or `None` for an
    /// undefined opcode.
    pub fn get_instruction(&self, instruction: u8) -> (r: Option<Instruction>)
        ensures
            r == self.spec_instruction(instruction),
    {
        let mut current_node: &Node = &self.root;
        let mut i: u8 = 0;
        while i < 8
            invariant
                i <= 8,
                walk(self.root, instruction, 0) == walk(*current_node, instruction, i),
            decreases 8 - i,
        {
            let bit = (instruction >> i) & 1;
            let child = if bit == 1 {
                &current_node.one
            } else {
                &current_node.zero
            };
            match child {
                Some(node) => {
                    current_node = &**node;
                },
                None => {
                    return None;
                },
            }
            i = i + 1;
        }
        current_node.instruction
    }

    /// The handler tag for `instruction`, or `None` for an undefined
    /// opcode.
    pub fn get_function(&self, instruction: u8) -> (r: Option<Mnemonic>)
        ensures
            r == self.spec_function(instruction),
    {
        let mut current_node: &Node = &self.root;
        let mut i: u8 = 0;
        while i < 8
            invariant
                i <= 8,
                walk(self.root, instruction, 0) == walk(*current_node, instruction, i),
            decreases 8 - i,
        {
            let bit = (instruction >> i) & 1;
            let child = if bit == 1 {
                &current_node.one
            } else {
                &current_node.zero
            };
            match child {
                Some(node) => {
                    current_node = &**node;
                },
                None => {
                    return None;
                },
            }
            i = i + 1;
        }
        current_node.function
    }
}

/// A trie that agrees with the canonical opcode table on every byte.
pub open spec fn is_opcode_table(t: Trie) -> bool {
    forall|b: u8|
        #![auto]
        t.spec_contains(b) == is_defined_opcode(b) && t.spec_instruction(b) == opcode_entry(b)
            && t.spec_function(b) == opcode_handler(b)
}


/// The opcodes that `fill_add_and` defines.
spec fn in_add_and(b: u8) -> bool {
    b == 0x69 || b == 0x65 || b == 0x75 || b == 0x6d || b == 0x7d || b == 0x79 || b == 0x61
        || b == 0x71 || b == 0x29 || b == 0x25 || b == 0x35 || b == 0x2d || b == 0x3d
        || b == 0x39 || b == 0x21 || b == 0x31
}

/// Inserts the table entries for ADC and AND.
#[verifier::rlimit(50)]
fn fill_add_and(trie: &mut Trie)
    ensures
        forall|b: u8|
            #![trigger final(trie).spec_contains(b)]
            #![trigger final(trie).spec_instruction(b)]
            #![trigger final(trie).spec_function(b)]
            final(trie).spec_contains(b) == (in_add_and(b) || old(trie).spec_contains(b))
                && final(trie).spec_instruction(b) == (if in_add_and(b) {
                opcode_entry(b)
            } else {
                old(trie).spec_instruction(b)
            }) && final(trie).spec_function(b) == (if in_add_and(b) {
                opcode_handler(b)
            } else {
                old(trie).spec_function(b)
            }),
{
    trie.insert(&0x69_u8, entry_of(Mnemonic::Adc, Mode::Immediate, 2, 0xC3), Some(Mnemonic::Adc));
    trie.insert(&0x65_u8, entry_of(Mnemonic::Adc, Mode::ZeroPage, 3, 0xC3), Some(Mnemonic::Adc));
    trie.insert(&0x75_u8, entry_of(Mnemonic::Adc, Mode::ZeroPageX, 4, 0xC3), Some(Mnemonic::Adc));
    trie.insert(&0x6d_u8, entry_of(Mnemonic::Adc, Mode::Absolute, 4, 0xC3), Some(Mnemonic::Adc));
    trie.insert(&0x7d_u8, entry_of(Mnemonic::Adc, Mode::AbsoluteX, 4, 0xC3), Some(Mnemonic::Adc));
    trie.insert(&0x79_u8, entry_of(Mnemonic::Adc, Mode::AbsoluteY, 4, 0xC3), Some(Mnemonic::Adc));
    trie.insert(&0x61_u8, entry_of(Mnemonic::Adc, Mode::XIndirect, 6, 0xC3), Some(Mnemonic::Adc));
    trie.insert(&0x71_u8, entry_of(Mnemonic::Adc, Mode::IndirectY, 5, 0xC3), Some(Mnemonic::Adc));
    trie.insert(&0x29_u8, entry_of(Mnemonic::And, Mode::Immediate, 2, 0x82), Some(Mnemonic::And));
    trie.insert(&0x25_u8, entry_of(Mnemonic::And, Mode::ZeroPage, 3, 0x82), Some(Mnemonic::And));
    trie.insert(&0x35_u8, entry_of(Mnemonic::And, Mode::ZeroPageX, 4, 0x82), Some(Mnemonic::And));
    trie.insert(&0x2d_u8, entry_of(Mnemonic::And, Mode::Absolute, 4, 0x82), Some(Mnemonic::And));
    trie.insert(&0x3d_u8, entry_of(Mnemonic::And, Mode::AbsoluteX, 4, 0x82), Some(Mnemonic::And));
    trie.insert(&0x39_u8, entry_of(Mnemonic::And, Mode::AbsoluteY, 4, 0x82), Some(Mnemonic::And));
    trie.insert(&0x21_u8, entry_of(Mnemonic::And, Mode::XIndirect, 6, 0x82), Some(Mnemonic::And));
    trie.insert(&0x31_u8, entry_of(Mnemonic::And, Mode::IndirectY, 5, 0x82), Some(Mnemonic::And));
}

/// The opcodes that `fill_shift_branch` defines.
spec fn in_shift_branch(b: u8) -> bool {
    b == 0x0a || b == 0x06 || b == 0x16 || b == 0x0e || b == 0x1e || b == 0x90 || b == 0xb0
        || b == 0xf0 || b == 0x30 || b == 0xd0 || b == 0x10 || b == 0x50 || b == 0x70
        || b == 0x24 || b == 0x2c || b == 0x00
}

/// Inserts the table entries for ASL, the branches, BIT and BRK.
#[verifier::rlimit(50)]
fn fill_shift_branch(trie: &mut Trie)
    ensures
        forall|b: u8|
            #![trigger final(trie).spec_contains(b)]
            #![trigger final(trie).spec_instruction(b)]
            #![trigger final(trie).spec_function(b)]
            final(trie).spec_contains(b) == (in_shift_branch(b) || old(trie).spec_contains(b))
                && final(trie).spec_instruction(b) == (if in_shift_branch(b) {
                opcode_entry(b)
            } else {
                old(trie).spec_instruction(b)
            }) && final(trie).spec_function(b) == (if in_shift_branch(b) {
                opcode_handler(b)
            } else {
                old(trie).spec_function(b)
            }),
{
    trie.insert(&0x0a_u8, entry_of(Mnemonic::Asl, Mode::Accumulator, 2, 0x83), Some(Mnemonic::Asl));
    trie.insert(&0x06_u8, entry_of(Mnemonic::Asl, Mode::ZeroPage, 5, 0x83), Some(Mnemonic::Asl));
    trie.insert(&0x16_u8, entry_of(Mnemonic::Asl, Mode::ZeroPageX, 6, 0x83), Some(Mnemonic::Asl));
    trie.insert(&0x0e_u8, entry_of(Mnemonic::Asl, Mode::Absolute, 6, 0x83), Some(Mnemonic::Asl));
    trie.insert(&0x1e_u8, entry_of(Mnemonic::Asl, Mode::AbsoluteX, 7, 0x83), Some(Mnemonic::Asl));
    trie.insert(&0x90_u8, entry_of(Mnemonic::Bcc, Mode::Relative, 2, 0x00), Some(Mnemonic::Bcc));
    trie.insert(&0xb0_u8, entry_of(Mnemonic::Bcs, Mode::Relative, 2, 0x00), Some(Mnemonic::Bcs));
    trie.insert(&0xf0_u8, entry_of(Mnemonic::Beq, Mode::Relative, 2, 0x00), Some(Mnemonic::Beq));
    trie.insert(&0x30_u8, entry_of(Mnemonic::Bmi, Mode::Relative, 2, 0x00), Some(Mnemonic::Bmi));
    trie.insert(&0xd0_u8, entry_of(Mnemonic::Bne, Mode::Relative, 2, 0x00), Some(Mnemonic::Bne));
    trie.insert(&0x10_u8, entry_of(Mnemonic::Bpl, Mode::Relative, 2, 0x00), Some(Mnemonic::Bpl));
    trie.insert(&0x50_u8, entry_of(Mnemonic::Bvc, Mode::Relative, 2, 0x00), Some(Mnemonic::Bvc));
    trie.insert(&0x70_u8, entry_of(Mnemonic::Bvs, Mode::Relative, 2, 0x00), Some(Mnemonic::Bvs));
    trie.insert(&0x24_u8, entry_of(Mnemonic::Bit, Mode::ZeroPage, 3, 0xC2), Some(Mnemonic::Bit));
    trie.insert(&0x2c_u8, entry_of(Mnemonic::Bit, Mode::Absolute, 4, 0xC2), Some(Mnemonic::Bit));
    trie.insert(&0x00_u8, entry_of(Mnemonic::Brk, Mode::Implied, 7, 0x00), Some(Mnemonic::Brk));
}

/// The opcodes that `fill_implied` defines.
spec fn in_implied(b: u8) -> bool {
    b == 0x18 || b == 0xd8 || b == 0x58 || b == 0xb8 || b == 0xea || b == 0x48 || b == 0x68
        || b == 0x08 || b == 0x28 || b == 0x40 || b == 0x60 || b == 0x38 || b == 0xf8
        || b == 0x78 || b == 0xaa || b == 0x8a || b == 0xa8 || b == 0x98 || b == 0xba
        || b == 0x9a
}

/// Inserts the table entries for the one-byte flag, stack, return and transfer opcodes.
#[verifier::rlimit(50)]
fn fill_implied(trie: &mut Trie)
    ensures
        forall|b: u8|
            #![trigger final(trie).spec_contains(b)]
            #![trigger final(trie).spec_instruction(b)]
            #![trigger final(trie).spec_function(b)]
            final(trie).spec_contains(b) == (in_implied(b) || old(trie).spec_contains(b))
                && final(trie).spec_instruction(b) == (if in_implied(b) {
                opcode_entry(b)
            } else {
                old(trie).spec_instruction(b)
            }) && final(trie).spec_function(b) == (if in_implied(b) {
                opcode_handler(b)
            } else {
                old(trie).spec_function(b)
            }),
{
    trie.insert(&0x18_u8, entry_of(Mnemonic::Clc, Mode::Implied, 2, 0x01), Some(Mnemonic::Clc));
    trie.insert(&0xd8_u8, entry_of(Mnemonic::Cld, Mode::Implied, 2, 0x08), Some(Mnemonic::Cld));
    trie.insert(&0x58_u8, entry_of(Mnemonic::Cli, Mode::Implied, 2, 0x04), Some(Mnemonic::Cli));
    trie.insert(&0xb8_u8, entry_of(Mnemonic::Clv, Mode::Implied, 2, 0x40), Some(Mnemonic::Clv));
    trie.insert(&0xea_u8, entry_of(Mnemonic::Nop, Mode::Implied, 2, 0x00), Some(Mnemonic::Nop));
    trie.insert(&0x48_u8, entry_of(Mnemonic::Pha, Mode::Implied, 3, 0x00), Some(Mnemonic::Pha));
    trie.insert(&0x68_u8, entry_of(Mnemonic::Pla, Mode::Implied, 4, 0x82), Some(Mnemonic::Pla));
    trie.insert(&0x08_u8, entry_of(Mnemonic::Php, Mode::Implied, 3, 0x00), Some(Mnemonic::Php));
    trie.insert(&0x28_u8, entry_of(Mnemonic::Plp, Mode::Implied, 4, 0xDF), Some(Mnemonic::Plp));
    trie.insert(&0x40_u8, entry_of(Mnemonic::Rti, Mode::Implied, 6, 0x00), Some(Mnemonic::Rti));
    trie.insert(&0x60_u8, entry_of(Mnemonic::Rts, Mode::Implied, 6, 0x00), Some(Mnemonic::Rts));
    trie.insert(&0x38_u8, entry_of(Mnemonic::Sec, Mode::Implied, 2, 0x01), Some(Mnemonic::Sec));
    trie.insert(&0xf8_u8, entry_of(Mnemonic::Sed, Mode::Implied, 2, 0x08), Some(Mnemonic::Sed));
    trie.insert(&0x78_u8, entry_of(Mnemonic::Sei, Mode::Implied, 2, 0x04), Some(Mnemonic::Sei));
    trie.insert(&0xaa_u8, entry_of(Mnemonic::Tax, Mode::Implied, 2, 0x82), Some(Mnemonic::Tax));
    trie.insert(&0x8a_u8, entry_of(Mnemonic::Txa, Mode::Implied, 2, 0x82), Some(Mnemonic::Txa));
    trie.insert(&0xa8_u8, entry_of(Mnemonic::Tay, Mode::Implied, 2, 0x82), Some(Mnemonic::Tay));
    trie.insert(&0x98_u8, entry_of(Mnemonic::Tya, Mode::Implied, 2, 0x82), Some(Mnemonic::Tya));
    trie.insert(&0xba_u8, entry_of(Mnemonic::Tsx, Mode::Implied, 2, 0x82), Some(Mnemonic::Tsx));
    trie.insert(&0x9a_u8, entry_of(Mnemonic::Txs, Mode::Implied, 2, 0x00), Some(Mnemonic::Txs));
}

/// The opcodes that `fill_compare` defines.
spec fn in_compare(b: u8) -> bool {
    b == 0xc9 || b == 0xc5 || b == 0xd5 || b == 0xcd || b == 0xdd || b == 0xd9 || b == 0xc1
        || b == 0xd1 || b == 0xe0 || b == 0xe4 || b == 0xec || b == 0xc0 || b == 0xc4
        || b == 0xcc
}

/// Inserts the table entries for CMP, CPX and CPY.
#[verifier::rlimit(50)]
fn fill_compare(trie: &mut Trie)
    ensures
        forall|b: u8|
            #![trigger final(trie).spec_contains(b)]
            #![trigger final(trie).spec_instruction(b)]
            #![trigger final(trie).spec_function(b)]
            final(trie).spec_contains(b) == (in_compare(b) || old(trie).spec_contains(b))
                && final(trie).spec_instruction(b) == (if in_compare(b) {
                opcode_entry(b)
            } else {
                old(trie).spec_instruction(b)
            }) && final(trie).spec_function(b) == (if in_compare(b) {
                opcode_handler(b)
            } else {
                old(trie).spec_function(b)
            }),
{
    trie.insert(&0xc9_u8, entry_of(Mnemonic::Cmp, Mode::Immediate, 2, 0x83), Some(Mnemonic::Cmp));
    trie.insert(&0xc5_u8, entry_of(Mnemonic::Cmp, Mode::ZeroPage, 3, 0x83), Some(Mnemonic::Cmp));
    trie.insert(&0xd5_u8, entry_of(Mnemonic::Cmp, Mode::ZeroPageX, 4, 0x83), Some(Mnemonic::Cmp));
    trie.insert(&0xcd_u8, entry_of(Mnemonic::Cmp, Mode::Absolute, 4, 0x83), Some(Mnemonic::Cmp));
    trie.insert(&0xdd_u8, entry_of(Mnemonic::Cmp, Mode::AbsoluteX, 4, 0x83), Some(Mnemonic::Cmp));
    trie.insert(&0xd9_u8, entry_of(Mnemonic::Cmp, Mode::AbsoluteY, 4, 0x83), Some(Mnemonic::Cmp));
    trie.insert(&0xc1_u8, entry_of(Mnemonic::Cmp, Mode::XIndirect, 6, 0x83), Some(Mnemonic::Cmp));
    trie.insert(&0xd1_u8, entry_of(Mnemonic::Cmp, Mode::IndirectY, 5, 0x83), Some(Mnemonic::Cmp));
    trie.insert(&0xe0_u8, entry_of(Mnemonic::Cpx, Mode::Immediate, 2, 0x83), Some(Mnemonic::Cpx));
    trie.insert(&0xe4_u8, entry_of(Mnemonic::Cpx, Mode::ZeroPage, 3, 0x83), Some(Mnemonic::Cpx));
    trie.insert(&0xec_u8, entry_of(Mnemonic::Cpx, Mode::Absolute, 4, 0x83), Some(Mnemonic::Cpx));
    trie.insert(&0xc0_u8, entry_of(Mnemonic::Cpy, Mode::Immediate, 2, 0x83), Some(Mnemonic::Cpy));
    trie.insert(&0xc4_u8, entry_of(Mnemonic::Cpy, Mode::ZeroPage, 3, 0x83), Some(Mnemonic::Cpy));
    trie.insert(&0xcc_u8, entry_of(Mnemonic::Cpy, Mode::Absolute, 4, 0x83), Some(Mnemonic::Cpy));
}

/// The opcodes that `fill_step` defines.
spec fn in_step(b: u8) -> bool {
    b == 0xc6 || b == 0xd6 || b == 0xce || b == 0xde || b == 0xca || b == 0x88 || b == 0xe8
        || b == 0xc8 || b == 0x49 || b == 0x45 || b == 0x55 || b == 0x4d || b == 0x5d
        || b == 0x59 || b == 0x41 || b == 0x51 || b == 0xe6 || b == 0xf6 || b == 0xee
        || b == 0xfe
}

/// Inserts the table entries for DEC, the register steps, EOR and INC.
#[verifier::rlimit(50)]
fn fill_step(trie: &mut Trie)
    ensures
        forall|b: u8|
            #![trigger final(trie).spec_contains(b)]
            #![trigger final(trie).spec_instruction(b)]
            #![trigger final(trie).spec_function(b)]
            final(trie).spec_contains(b) == (in_step(b) || old(trie).spec_contains(b))
                && final(trie).spec_instruction(b) == (if in_step(b) {
                opcode_entry(b)
            } else {
                old(trie).spec_instruction(b)
            }) && final(trie).spec_function(b) == (if in_step(b) {
                opcode_handler(b)
            } else {
                old(trie).spec_function(b)
            }),
{
    trie.insert(&0xc6_u8, entry_of(Mnemonic::Dec, Mode::ZeroPage, 5, 0x82), Some(Mnemonic::Dec));
    trie.insert(&0xd6_u8, entry_of(Mnemonic::Dec, Mode::ZeroPageX, 6, 0x82), Some(Mnemonic::Dec));
    trie.insert(&0xce_u8, entry_of(Mnemonic::Dec, Mode::Absolute, 6, 0x82), Some(Mnemonic::Dec));
    trie.insert(&0xde_u8, entry_of(Mnemonic::Dec, Mode::AbsoluteX, 7, 0x82), Some(Mnemonic::Dec));
    trie.insert(&0xca_u8, entry_of(Mnemonic::Dex, Mode::Implied, 2, 0x82), Some(Mnemonic::Dex));
    trie.insert(&0x88_u8, entry_of(Mnemonic::Dey, Mode::Implied, 2, 0x82), Some(Mnemonic::Dey));
    trie.insert(&0xe8_u8, entry_of(Mnemonic::Inx, Mode::Implied, 2, 0x82), Some(Mnemonic::Inx));
    trie.insert(&0xc8_u8, entry_of(Mnemonic::Iny, Mode::Implied, 2, 0x82), Some(Mnemonic::Iny));
    trie.insert(&0x49_u8, entry_of(Mnemonic::Eor, Mode::Immediate, 2, 0x82), Some(Mnemonic::Eor));
    trie.insert(&0x45_u8, entry_of(Mnemonic::Eor, Mode::ZeroPage, 3, 0x82), Some(Mnemonic::Eor));
    trie.insert(&0x55_u8, entry_of(Mnemonic::Eor, Mode::ZeroPageX, 4, 0x82), Some(Mnemonic::Eor));
    trie.insert(&0x4d_u8, entry_of(Mnemonic::Eor, Mode::Absolute, 4, 0x82), Some(Mnemonic::Eor));
    trie.insert(&0x5d_u8, entry_of(Mnemonic::Eor, Mode::AbsoluteX, 4, 0x82), Some(Mnemonic::Eor));
    trie.insert(&0x59_u8, entry_of(Mnemonic::Eor, Mode::AbsoluteY, 4, 0x82), Some(Mnemonic::Eor));
    trie.insert(&0x41_u8, entry_of(Mnemonic::Eor, Mode::XIndirect, 6, 0x82), Some(Mnemonic::Eor));
    trie.insert(&0x51_u8, entry_of(Mnemonic::Eor, Mode::IndirectY, 5, 0x82), Some(Mnemonic::Eor));
    trie.insert(&0xe6_u8, entry_of(Mnemonic::Inc, Mode::ZeroPage, 5, 0x82), Some(Mnemonic::Inc));
    trie.insert(&0xf6_u8, entry_of(Mnemonic::Inc, Mode::ZeroPageX, 6, 0x82), Some(Mnemonic::Inc));
    trie.insert(&0xee_u8, entry_of(Mnemonic::Inc, Mode::Absolute, 6, 0x82), Some(Mnemonic::Inc));
    trie.insert(&0xfe_u8, entry_of(Mnemonic::Inc, Mode::AbsoluteX, 7, 0x82), Some(Mnemonic::Inc));
}

/// The opcodes that `fill_jump_load` defines.
spec fn in_jump_load(b: u8) -> bool {
    b == 0x4c || b == 0x6c || b == 0x20 || b == 0xa9 || b == 0xa5 || b == 0xb5 || b == 0xad
        || b == 0xbd || b == 0xb9 || b == 0xa1 || b == 0xb1 || b == 0xa2 || b == 0xa6
        || b == 0xb6 || b == 0xae || b == 0xbe || b == 0xa0 || b == 0xa4 || b == 0xb4
        || b == 0xac || b == 0xbc
}

/// Inserts the table entries for JMP, JSR and the loads.
#[verifier::rlimit(50)]
fn fill_jump_load(trie: &mut Trie)
    ensures
        forall|b: u8|
            #![trigger final(trie).spec_contains(b)]
            #![trigger final(trie).spec_instruction(b)]
            #![trigger final(trie).spec_function(b)]
            final(trie).spec_contains(b) == (in_jump_load(b) || old(trie).spec_contains(b))
                && final(trie).spec_instruction(b) == (if in_jump_load(b) {
                opcode_entry(b)
            } else {
                old(trie).spec_instruction(b)
            }) && final(trie).spec_function(b) == (if in_jump_load(b) {
                opcode_handler(b)
            } else {
                old(trie).spec_function(b)
            }),
{
    trie.insert(&0x4c_u8, entry_of(Mnemonic::Jmp, Mode::Absolute, 3, 0x00), Some(Mnemonic::Jmp));
    trie.insert(&0x6c_u8, entry_of(Mnemonic::Jmp, Mode::Indirect, 5, 0x00), Some(Mnemonic::Jmp));
    trie.insert(&0x20_u8, entry_of(Mnemonic::Jsr, Mode::Absolute, 6, 0x00), Some(Mnemonic::Jsr));
    trie.insert(&0xa9_u8, entry_of(Mnemonic::Lda, Mode::Immediate, 2, 0x82), Some(Mnemonic::Lda));
    trie.insert(&0xa5_u8, entry_of(Mnemonic::Lda, Mode::ZeroPage, 3, 0x82), Some(Mnemonic::Lda));
    trie.insert(&0xb5_u8, entry_of(Mnemonic::Lda, Mode::ZeroPageX, 4, 0x82), Some(Mnemonic::Lda));
    trie.insert(&0xad_u8, entry_of(Mnemonic::Lda, Mode::Absolute, 4, 0x82), Some(Mnemonic::Lda));
    trie.insert(&0xbd_u8, entry_of(Mnemonic::Lda, Mode::AbsoluteX, 4, 0x82), Some(Mnemonic::Lda));
    trie.insert(&0xb9_u8, entry_of(Mnemonic::Lda, Mode::AbsoluteY, 4, 0x82), Some(Mnemonic::Lda));
    trie.insert(&0xa1_u8, entry_of(Mnemonic::Lda, Mode::XIndirect, 6, 0x82), Some(Mnemonic::Lda));
    trie.insert(&0xb1_u8, entry_of(Mnemonic::Lda, Mode::IndirectY, 5, 0x82), Some(Mnemonic::Lda));
    trie.insert(&0xa2_u8, entry_of(Mnemonic::Ldx, Mode::Immediate, 2, 0x82), Some(Mnemonic::Ldx));
    trie.insert(&0xa6_u8, entry_of(Mnemonic::Ldx, Mode::ZeroPage, 3, 0x82), Some(Mnemonic::Ldx));
    trie.insert(&0xb6_u8, entry_of(Mnemonic::Ldx, Mode::ZeroPageY, 4, 0x82), Some(Mnemonic::Ldx));
    trie.insert(&0xae_u8, entry_of(Mnemonic::Ldx, Mode::Absolute, 4, 0x82), Some(Mnemonic::Ldx));
    trie.insert(&0xbe_u8, entry_of(Mnemonic::Ldx, Mode::AbsoluteY, 4, 0x82), Some(Mnemonic::Ldx));
    trie.insert(&0xa0_u8, entry_of(Mnemonic::Ldy, Mode::Immediate, 2, 0x82), Some(Mnemonic::Ldy));
    trie.insert(&0xa4_u8, entry_of(Mnemonic::Ldy, Mode::ZeroPage, 3, 0x82), Some(Mnemonic::Ldy));
    trie.insert(&0xb4_u8, entry_of(Mnemonic::Ldy, Mode::ZeroPageX, 4, 0x82), Some(Mnemonic::Ldy));
    trie.insert(&0xac_u8, entry_of(Mnemonic::Ldy, Mode::Absolute, 4, 0x82), Some(Mnemonic::Ldy));
    trie.insert(&0xbc_u8, entry_of(Mnemonic::Ldy, Mode::AbsoluteX, 4, 0x82), Some(Mnemonic::Ldy));
}

/// The opcodes that `fill_logic_rotate` defines.
spec fn in_logic_rotate(b: u8) -> bool {
    b == 0x4a || b == 0x46 || b == 0x56 || b == 0x4e || b == 0x5e || b == 0x09 || b == 0x05
        || b == 0x15 || b == 0x0d || b == 0x1d || b == 0x19 || b == 0x01 || b == 0x11
        || b == 0x2a || b == 0x26 || b == 0x36 || b == 0x2e || b == 0x3e || b == 0x6a
        || b == 0x66 || b == 0x76 || b == 0x6e || b == 0x7e
}

/// Inserts the table entries for LSR, ORA, ROL and ROR.
#[verifier::rlimit(50)]
fn fill_logic_rotate(trie: &mut Trie)
    ensures
        forall|b: u8|
            #![trigger final(trie).spec_contains(b)]
            #![trigger final(trie).spec_instruction(b)]
            #![trigger final(trie).spec_function(b)]
            final(trie).spec_contains(b) == (in_logic_rotate(b) || old(trie).spec_contains(b))
                && final(trie).spec_instruction(b) == (if in_logic_rotate(b) {
                opcode_entry(b)
            } else {
                old(trie).spec_instruction(b)
            }) && final(trie).spec_function(b) == (if in_logic_rotate(b) {
                opcode_handler(b)
            } else {
                old(trie).spec_function(b)
            }),
{
    trie.insert(&0x4a_u8, entry_of(Mnemonic::Lsr, Mode::Accumulator, 2, 0x83), Some(Mnemonic::Lsr));
    trie.insert(&0x46_u8, entry_of(Mnemonic::Lsr, Mode::ZeroPage, 5, 0x83), Some(Mnemonic::Lsr));
    trie.insert(&0x56_u8, entry_of(Mnemonic::Lsr, Mode::ZeroPageX, 6, 0x83), Some(Mnemonic::Lsr));
    trie.insert(&0x4e_u8, entry_of(Mnemonic::Lsr, Mode::Absolute, 6, 0x83), Some(Mnemonic::Lsr));
    trie.insert(&0x5e_u8, entry_of(Mnemonic::Lsr, Mode::AbsoluteX, 7, 0x83), Some(Mnemonic::Lsr));
    trie.insert(&0x09_u8, entry_of(Mnemonic::Ora, Mode::Immediate, 2, 0x82), Some(Mnemonic::Ora));
    trie.insert(&0x05_u8, entry_of(Mnemonic::Ora, Mode::ZeroPage, 3, 0x82), Some(Mnemonic::Ora));
    trie.insert(&0x15_u8, entry_of(Mnemonic::Ora, Mode::ZeroPageX, 4, 0x82), Some(Mnemonic::Ora));
    trie.insert(&0x0d_u8, entry_of(Mnemonic::Ora, Mode::Absolute, 4, 0x82), Some(Mnemonic::Ora));
    trie.insert(&0x1d_u8, entry_of(Mnemonic::Ora, Mode::AbsoluteX, 4, 0x82), Some(Mnemonic::Ora));
    trie.insert(&0x19_u8, entry_of(Mnemonic::Ora, Mode::AbsoluteY, 4, 0x82), Some(Mnemonic::Ora));
    trie.insert(&0x01_u8, entry_of(Mnemonic::Ora, Mode::XIndirect, 6, 0x82), Some(Mnemonic::Ora));
    trie.insert(&0x11_u8, entry_of(Mnemonic::Ora, Mode::IndirectY, 5, 0x82), Some(Mnemonic::Ora));
    trie.insert(&0x2a_u8, entry_of(Mnemonic::Rol, Mode::Accumulator, 2, 0x83), Some(Mnemonic::Rol));
    trie.insert(&0x26_u8, entry_of(Mnemonic::Rol, Mode::ZeroPage, 5, 0x83), Some(Mnemonic::Rol));
    trie.insert(&0x36_u8, entry_of(Mnemonic::Rol, Mode::ZeroPageX, 6, 0x83), Some(Mnemonic::Rol));
    trie.insert(&0x2e_u8, entry_of(Mnemonic::Rol, Mode::Absolute, 6, 0x83), Some(Mnemonic::Rol));
    trie.insert(&0x3e_u8, entry_of(Mnemonic::Rol, Mode::AbsoluteX, 7, 0x83), Some(Mnemonic::Rol));
    trie.insert(&0x6a_u8, entry_of(Mnemonic::Ror, Mode::Accumulator, 2, 0x83), Some(Mnemonic::Ror));
    trie.insert(&0x66_u8, entry_of(Mnemonic::Ror, Mode::ZeroPage, 5, 0x83), Some(Mnemonic::Ror));
    trie.insert(&0x76_u8, entry_of(Mnemonic::Ror, Mode::ZeroPageX, 6, 0x83), Some(Mnemonic::Ror));
    trie.insert(&0x6e_u8, entry_of(Mnemonic::Ror, Mode::Absolute, 6, 0x83), Some(Mnemonic::Ror));
    trie.insert(&0x7e_u8, entry_of(Mnemonic::Ror, Mode::AbsoluteX, 7, 0x83), Some(Mnemonic::Ror));
}

/// The opcodes that `fill_subtract_store` defines.
spec fn in_subtract_store(b: u8) -> bool {
    b == 0xe9 || b == 0xe5 || b == 0xf5 || b == 0xed || b == 0xfd || b == 0xf9 || b == 0xe1
        || b == 0xf1 || b == 0x85 || b == 0x95 || b == 0x8d || b == 0x9d || b == 0x99
        || b == 0x81 || b == 0x91 || b == 0x86 || b == 0x96 || b == 0x8e || b == 0x84
        || b == 0x94 || b == 0x8c
}

/// Inserts the table entries for SBC and the stores.
#[verifier::rlimit(50)]
fn fill_subtract_store(trie: &mut Trie)
    ensures
        forall|b: u8|
            #![trigger final(trie).spec_contains(b)]
            #![trigger final(trie).spec_instruction(b)]
            #![trigger final(trie).spec_function(b)]
            final(trie).spec_contains(b) == (in_subtract_store(b) || old(trie).spec_contains(b))
                && final(trie).spec_instruction(b) == (if in_subtract_store(b) {
                opcode_entry(b)
            } else {
                old(trie).spec_instruction(b)
            }) && final(trie).spec_function(b) == (if in_subtract_store(b) {
                opcode_handler(b)
            } else {
                old(trie).spec_function(b)
            }),
{
    trie.insert(&0xe9_u8, entry_of(Mnemonic::Sbc, Mode::Immediate, 2, 0xC3), Some(Mnemonic::Sbc));
    trie.insert(&0xe5_u8, entry_of(Mnemonic::Sbc, Mode::ZeroPage, 3, 0xC3), Some(Mnemonic::Sbc));
    trie.insert(&0xf5_u8, entry_of(Mnemonic::Sbc, Mode::ZeroPageX, 4, 0xC3), Some(Mnemonic::Sbc));
    trie.insert(&0xed_u8, entry_of(Mnemonic::Sbc, Mode::Absolute, 4, 0xC3), Some(Mnemonic::Sbc));
    trie.insert(&0xfd_u8, entry_of(Mnemonic::Sbc, Mode::AbsoluteX, 4, 0xC3), Some(Mnemonic::Sbc));
    trie.insert(&0xf9_u8, entry_of(Mnemonic::Sbc, Mode::AbsoluteY, 4, 0xC3), Some(Mnemonic::Sbc));
    trie.insert(&0xe1_u8, entry_of(Mnemonic::Sbc, Mode::XIndirect, 6, 0xC3), Some(Mnemonic::Sbc));
    trie.insert(&0xf1_u8, entry_of(Mnemonic::Sbc, Mode::IndirectY, 5, 0xC3), Some(Mnemonic::Sbc));
    trie.insert(&0x85_u8, entry_of(Mnemonic::Sta, Mode::ZeroPage, 3, 0x00), Some(Mnemonic::Sta));
    trie.insert(&0x95_u8, entry_of(Mnemonic::Sta, Mode::ZeroPageX, 4, 0x00), Some(Mnemonic::Sta));
    trie.insert(&0x8d_u8, entry_of(Mnemonic::Sta, Mode::Absolute, 4, 0x00), Some(Mnemonic::Sta));
    trie.insert(&0x9d_u8, entry_of(Mnemonic::Sta, Mode::AbsoluteX, 5, 0x00), Some(Mnemonic::Sta));
    trie.insert(&0x99_u8, entry_of(Mnemonic::Sta, Mode::AbsoluteY, 5, 0x00), Some(Mnemonic::Sta));
    trie.insert(&0x81_u8, entry_of(Mnemonic::Sta, Mode::XIndirect, 6, 0x00), Some(Mnemonic::Sta));
    trie.insert(&0x91_u8, entry_of(Mnemonic::Sta, Mode::IndirectY, 6, 0x00), Some(Mnemonic::Sta));
    trie.insert(&0x86_u8, entry_of(Mnemonic::Stx, Mode::ZeroPage, 3, 0x00), Some(Mnemonic::Stx));
    trie.insert(&0x96_u8, entry_of(Mnemonic::Stx, Mode::ZeroPageY, 4, 0x00), Some(Mnemonic::Stx));
    trie.insert(&0x8e_u8, entry_of(Mnemonic::Stx, Mode::Absolute, 4, 0x00), Some(Mnemonic::Stx));
    trie.insert(&0x84_u8, entry_of(Mnemonic::Sty, Mode::ZeroPage, 3, 0x00), Some(Mnemonic::Sty));
    trie.insert(&0x94_u8, entry_of(Mnemonic::Sty, Mode::ZeroPageX, 4, 0x00), Some(Mnemonic::Sty));
    trie.insert(&0x8c_u8, entry_of(Mnemonic::Sty, Mode::Absolute, 4, 0x00), Some(Mnemonic::Sty));
}

/// Builds the dispatch trie for the full documented opcode set: all
/// 151 defined opcodes, each with its metadata and handler tag.
#[verifier::rlimit(100)]
pub fn gen_trie() -> (t: Trie)
    ensures
        is_opcode_table(t),
{
    let mut trie: Trie = Trie::new();
    fill_add_and(&mut trie);
    fill_shift_branch(&mut trie);
    fill_implied(&mut trie);
    fill_compare(&mut trie);
    fill_step(&mut trie);
    fill_jump_load(&mut trie);
    fill_logic_rotate(&mut trie);
    fill_subtract_store(&mut trie);
    proof {
        assert forall|b: u8|
            #![auto]
            trie.spec_contains(b) == is_defined_opcode(b) && trie.spec_instruction(b)
                == opcode_entry(b) && trie.spec_function(b) == opcode_handler(b) by {
            if in_add_and(b) {
                assert(trie.spec_instruction(b) == opcode_entry(b));
            } else if in_shift_branch(b) {
                assert(trie.spec_instruction(b) == opcode_entry(b));
            } else if in_implied(b) {
                assert(trie.spec_instruction(b) == opcode_entry(b));
            } else if in_compare(b) {
                assert(trie.spec_instruction(b) == opcode_entry(b));
            } else if in_step(b) {
                assert(trie.spec_instruction(b) == opcode_entry(b));
            } else if in_jump_load(b) {
                assert(trie.spec_instruction(b) == opcode_entry(b));
            } else if in_logic_rotate(b) {
                assert(trie.spec_instruction(b) == opcode_entry(b));
            } else if in_subtract_store(b) {
                assert(trie.spec_instruction(b) == opcode_entry(b));
            } else {
                assert(!trie.spec_contains(b));
                assert(opcode_entry(b) is None);
            }
        }
    }
    trie
}


/// Every one of the 151 documented opcodes has both its metadata and
/// its handler in an opcode table, and every other byte value has
/// neither.
pub proof fn lemma_opcode_coverage(t: Trie, b: u8)
    requires
        is_opcode_table(t),
    ensures
        is_defined_opcode(b) ==> t.spec_contains(b) && t.spec_instruction(b) is Some
            && t.spec_function(b) is Some,
        !is_defined_opcode(b) ==> !t.spec_contains(b) && t.spec_instruction(b) is None
            && t.spec_function(b) is None,
{
}

} // verus!

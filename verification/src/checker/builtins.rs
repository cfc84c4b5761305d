//! The builtin functions of the language, one per group of names: what each one
//! requires of its arguments and the passport it gives.

use vstd::prelude::*;
use vstd::string::*;

use super::infer::{
    args_model_lemma, args_size, checked_predicate, checked_predicate_of, compare_model, compare_passport, deployed_on_pool,
    deployed_on_pool_model, gpu_devices_spec, is_infinity_mode, is_runtime_dependent, lemma_args_size, lookup_qualified_spec,
    node_arch_of, pool_nodes_spec, proof_compare_model, proof_compare_passport, runtime_dependent,
    text_model, text_passport, universe_level, universe_level_of, infer_spec,
};
use super::{cap_error, first_bridge, literal_of, literal_u128, passport_result, CheckEnv, Checker};
use crate::ast::{args_model, BridgeKind, BridgeKindV, Expr, ExprKind, ExprKindV, ExprV};
use crate::diagnostics::{error_help, error_model, error_with_help, Diagnostic, DiagnosticKind, DiagnosticV};
use crate::passport::constructors::{axiom_bool_model, axiom_consistency_proof_model, axiom_nat_model, axiom_reflection_proof_model, axiom_self_reference_proof_model, axiom_truth_from_provable_model, big_nat_model, big_number_resource_nat_model, cardinal_infinity_model, class_infinity_model, class_of_universe_model, cluster_resource_nat_model, consistency_claim_model, copied_from_gpu_model, definability_resource_nat_model, definable_nat_model, deployed_portable_code_model, distributed_gpu_memory_region_model, distributed_memory_region_model, encoding_model, gpu_device_with_model, gpu_kernel_model, gpu_memory_resource_nat_model, gpu_pool_model, gpu_value_model, infinity_binary_result_model, infinity_succ_result_model, kernel_checked_proof_model, language_model, launched_gpu_kernel_model, limit_infinity_model, live_migrated_remote_model, materialized_remote_model, memory_checkpoint_model, memory_region_resource_nat_model, meta_level_model, migrated_to_model, node_model, ordinal_infinity_model, portable_code_model, potential_infinity_model, proof_term_model, proposition_model, provable_claim_model, raw_external_bytes_model, reflection_claim_model, remote_checkpoint_model, restored_memory_region_model, restored_remote_model, runtime_nat_from_input_model, runtime_witness_model, scheduled_to_model, self_reference_claim_model, set_of_universe_model, soundness_proof_model, static_proof_model, term_of_model, transported_to_model, universe_infinity_model, universe_level_nat_model, universe_model, universe_succ_model, unsafe_nat_model, virtual_cluster_model};
use crate::passport::record::{passport_text, resource_total};
use crate::passport::type_kind::type_text;
use crate::passport::{
    Capability, ConstructionMode, CostClass, GpuBackend, InfinityMode, NodeArch, Passport, PassportV, TypeKind, TypeKindV,
};
use crate::passport_rules::require_capability;
use crate::text::{dec_text, str_eq, u128_text, usize_text};

verus! {

/// `universe`.
pub open spec fn b_universe_spec(env: CheckEnv, name: Seq<char>, args: Seq<ExprV>, amb: Seq<char>, line: usize) -> Result<PassportV, DiagnosticV>
{
    Err(error_with_help(DiagnosticKind::UniverseLevelError, line, "ambiguous universe is not allowed"@, "use an explicit universe constructor: U0(), U1(), U2(), or universe_succ(U n)"@))
}

/// `U0`, `universe0`.
pub open spec fn b_u0_spec(env: CheckEnv, name: Seq<char>, args: Seq<ExprV>, amb: Seq<char>, line: usize) -> Result<PassportV, DiagnosticV>
{
    if args.len() != 0 { Err(error_model(DiagnosticKind::ParseError, Some(line), name + " expects no arguments"@)) } else {
        Ok(universe_model(amb, 0))
    }
}

/// `U1`, `universe1`.
pub open spec fn b_u1_spec(env: CheckEnv, name: Seq<char>, args: Seq<ExprV>, amb: Seq<char>, line: usize) -> Result<PassportV, DiagnosticV>
{
    if args.len() != 0 { Err(error_model(DiagnosticKind::ParseError, Some(line), name + " expects no arguments"@)) } else {
        Ok(universe_model(amb, 1))
    }
}

/// `U2`, `universe2`.
pub open spec fn b_u2_spec(env: CheckEnv, name: Seq<char>, args: Seq<ExprV>, amb: Seq<char>, line: usize) -> Result<PassportV, DiagnosticV>
{
    if args.len() != 0 { Err(error_model(DiagnosticKind::ParseError, Some(line), name + " expects no arguments"@)) } else {
        Ok(universe_model(amb, 2))
    }
}

/// `universe_succ`, `next_universe`.
pub open spec fn b_universe_succ_spec(env: CheckEnv, name: Seq<char>, args: Seq<ExprV>, amb: Seq<char>, line: usize) -> Result<PassportV, DiagnosticV>
    decreases 2 * args_size(args) + 1, args.len() + 1,
{
    proof {
        lemma_args_size(args);
    }
    if args.len() != 1 { Err(error_model(DiagnosticKind::ParseError, Some(line), name + " expects one Universe argument"@)) } else {
        match infer_spec(env, args[0], amb) {
            Err(d) => Err(d),
            Ok(value) => {
                if !(value.ty is Universe) { Err(error_with_help(DiagnosticKind::UniverseLevelError, line, "universe_succ requires a Universe<U n> value"@, "value passport: "@ + passport_text(value))) } else {
                    match cap_error(value, Capability::CanLiftUniverse, line, "universe_succ requires can_lift_universe"@) {
                        Some(d) => Err(d),
                        None => {
                            Ok(universe_succ_model(value, amb))
                        },
                    }
                }
            },
        }
    }
}

/// `set_of`, `set_from_universe`.
pub open spec fn b_set_of_spec(env: CheckEnv, name: Seq<char>, args: Seq<ExprV>, amb: Seq<char>, line: usize) -> Result<PassportV, DiagnosticV>
    decreases 2 * args_size(args) + 1, args.len() + 1,
{
    proof {
        lemma_args_size(args);
    }
    if args.len() != 1 { Err(error_model(DiagnosticKind::ParseError, Some(line), name + " expects one Universe argument"@)) } else {
        match infer_spec(env, args[0], amb) {
            Err(d) => Err(d),
            Ok(value) => {
                if !(value.ty is Universe) { Err(error_with_help(DiagnosticKind::UniverseLevelError, line, "set_of requires a Universe<U n>; sets cannot be formed from Set/Class values directly"@, "value passport: "@ + passport_text(value))) } else {
                    match cap_error(value, Capability::CanFormSet, line, "set_of requires can_form_set"@) {
                        Some(d) => Err(d),
                        None => {
                            if universe_level(value.ty) == 255 { Err(error_with_help(DiagnosticKind::UniverseLevelError, line, "cannot form Set<U255 -> U256> in MVP universe hierarchy"@, "MVP uses u8 universe levels; choose a smaller universe level."@)) } else {
                                Ok(set_of_universe_model(value, amb))
                            }
                        },
                    }
                }
            },
        }
    }
}

/// `class_of`, `class_from_universe`.
pub open spec fn b_class_of_spec(env: CheckEnv, name: Seq<char>, args: Seq<ExprV>, amb: Seq<char>, line: usize) -> Result<PassportV, DiagnosticV>
    decreases 2 * args_size(args) + 1, args.len() + 1,
{
    proof {
        lemma_args_size(args);
    }
    if args.len() != 1 { Err(error_model(DiagnosticKind::ParseError, Some(line), name + " expects one Universe argument"@)) } else {
        match infer_spec(env, args[0], amb) {
            Err(d) => Err(d),
            Ok(value) => {
                if !(value.ty is Universe) { Err(error_with_help(DiagnosticKind::UniverseLevelError, line, "class_of requires a Universe<U n>; classes are meta-level views of universes"@, "value passport: "@ + passport_text(value))) } else {
                    match cap_error(value, Capability::CanFormClass, line, "class_of requires can_form_class"@) {
                        Some(d) => Err(d),
                        None => {
                            Ok(class_of_universe_model(value, amb))
                        },
                    }
                }
            },
        }
    }
}

/// `set_lives_in`.
pub open spec fn b_set_lives_in_spec(env: CheckEnv, name: Seq<char>, args: Seq<ExprV>, amb: Seq<char>, line: usize) -> Result<PassportV, DiagnosticV>
    decreases 2 * args_size(args) + 1, args.len() + 1,
{
    proof {
        lemma_args_size(args);
    }
    if args.len() != 1 { Err(error_model(DiagnosticKind::ParseError, Some(line), "set_lives_in expects one Set argument"@)) } else {
        match infer_spec(env, args[0], amb) {
            Err(d) => Err(d),
            Ok(value) => {
                if !(value.ty is SetType) { Err(error_with_help(DiagnosticKind::UniverseLevelError, line, "set_lives_in requires Set<U n -> U n+1>"@, "value passport: "@ + passport_text(value))) } else {
                    match cap_error(value, Capability::CanSetReason, line, "set_lives_in requires can_set_reason"@) {
                        Some(d) => Err(d),
                        None => {
                            Ok(universe_level_nat_model(amb, value, "set:lives_in_level"@))
                        },
                    }
                }
            },
        }
    }
}

/// `class_level`.
pub open spec fn b_class_level_spec(env: CheckEnv, name: Seq<char>, args: Seq<ExprV>, amb: Seq<char>, line: usize) -> Result<PassportV, DiagnosticV>
    decreases 2 * args_size(args) + 1, args.len() + 1,
{
    proof {
        lemma_args_size(args);
    }
    if args.len() != 1 { Err(error_model(DiagnosticKind::ParseError, Some(line), "class_level expects one Class argument"@)) } else {
        match infer_spec(env, args[0], amb) {
            Err(d) => Err(d),
            Ok(value) => {
                if !(value.ty is Class) { Err(error_with_help(DiagnosticKind::UniverseLevelError, line, "class_level requires Class<U n>"@, "value passport: "@ + passport_text(value))) } else {
                    match cap_error(value, Capability::CanClassReason, line, "class_level requires can_class_reason"@) {
                        Some(d) => Err(d),
                        None => {
                            Ok(universe_level_nat_model(amb, value, "class:level"@))
                        },
                    }
                }
            },
        }
    }
}

/// `set_of_all_sets`, `russell_set`.
pub open spec fn b_set_of_all_sets_spec(env: CheckEnv, name: Seq<char>, args: Seq<ExprV>, amb: Seq<char>, line: usize) -> Result<PassportV, DiagnosticV>
{
    Err(error_with_help(DiagnosticKind::UniverseLevelError, line, "set_of_all_sets is not a valid object in the current universe hierarchy"@, "Use class_of(U n) for a proper-class/meta-level view, or set_of(U n) to form a set in U n+1 from one explicit universe level."@))
}

/// `language_L0`, `L0_language`, `language_core`.
pub open spec fn b_language_l0_spec(env: CheckEnv, name: Seq<char>, args: Seq<ExprV>, amb: Seq<char>, line: usize) -> Result<PassportV, DiagnosticV>
{
    if args.len() != 0 { Err(error_model(DiagnosticKind::DefinabilityError, Some(line), name + " expects no arguments"@)) } else {
        Ok(language_model(amb, "L0"@))
    }
}

/// `encoding_godel`, `godel_encoding`.
pub open spec fn b_encoding_godel_spec(env: CheckEnv, name: Seq<char>, args: Seq<ExprV>, amb: Seq<char>, line: usize) -> Result<PassportV, DiagnosticV>
{
    if args.len() != 0 { Err(error_model(DiagnosticKind::DefinabilityError, Some(line), name + " expects no arguments"@)) } else {
        Ok(encoding_model(amb, "Godel"@))
    }
}

/// `meta_level`, `M`.
pub open spec fn b_meta_level_spec(env: CheckEnv, name: Seq<char>, args: Seq<ExprV>, amb: Seq<char>, line: usize) -> Result<PassportV, DiagnosticV>
{
    if args.len() != 1 { Err(error_model(DiagnosticKind::DefinabilityError, Some(line), name + " expects one literal Nat level"@)) } else {
        match literal_of(args[0]) {
            None => Err(error_model(DiagnosticKind::DefinabilityError, Some(line), "meta_level requires a literal Nat in MVP"@)),
            Some(raw) => {
                if raw > 255 { Err(error_model(DiagnosticKind::DefinabilityError, Some(line), "meta_level is limited to u8 in MVP"@)) } else {
                    Ok(meta_level_model(amb, raw as u8, None))
                }
            },
        }
    }
}

/// `definable_nat`, `define_nat`.
pub open spec fn b_definable_nat_spec(env: CheckEnv, name: Seq<char>, args: Seq<ExprV>, amb: Seq<char>, line: usize) -> Result<PassportV, DiagnosticV>
    decreases 2 * args_size(args) + 1, args.len() + 1,
{
    proof {
        lemma_args_size(args);
    }
    if args.len() != 4 { Err(error_with_help(DiagnosticKind::DefinabilityError, line, "definable_nat requires explicit language, encoding, bound and meta-level"@, "use: definable_nat(language_L0(), encoding_godel(), 20, meta_level(1))"@)) } else {
        match infer_spec(env, args[0], amb) {
            Err(d) => Err(d),
            Ok(language) => {
                if !(language.ty is Language) { Err(error_with_help(DiagnosticKind::DefinabilityError, line, "definable_nat requires Language as first argument"@, "value passport: "@ + passport_text(language))) } else {
                    match cap_error(language, Capability::CanDefineInLanguage, line, "definable_nat language requires can_define_in_language"@) {
                        Some(d) => Err(d),
                        None => {
                            match infer_spec(env, args[1], amb) {
                                Err(d) => Err(d),
                                Ok(encoding) => {
                                    if !(encoding.ty is Encoding) { Err(error_with_help(DiagnosticKind::DefinabilityError, line, "definable_nat requires Encoding as second argument"@, "value passport: "@ + passport_text(encoding))) } else {
                                        match cap_error(encoding, Capability::CanUseEncoding, line, "definable_nat encoding requires can_use_encoding"@) {
                                            Some(d) => Err(d),
                                            None => {
                                                match literal_of(args[2]) {
                                                    None => Err(error_model(DiagnosticKind::DefinabilityError, Some(line), "definable_nat bound must be a literal Nat in MVP"@)),
                                                    Some(bound) => {
                                                        if bound == 0 { Err(error_model(DiagnosticKind::DefinabilityError, Some(line), "definable_nat bound must be greater than zero"@)) } else {
                                                            match infer_spec(env, args[3], amb) {
                                                                Err(d) => Err(d),
                                                                Ok(meta) => {
                                                                    if !(meta.ty is MetaLevel) { Err(error_with_help(DiagnosticKind::DefinabilityError, line, "definable_nat requires MetaLevel as fourth argument"@, "value passport: "@ + passport_text(meta))) } else {
                                                                        match cap_error(meta, Capability::CanMetaLevelReason, line, "definable_nat meta-level requires can_meta_level_reason"@) {
                                                                            Some(d) => Err(d),
                                                                            None => {
                                                                                Ok(definable_nat_model(amb, language, encoding, bound, meta))
                                                                            },
                                                                        }
                                                                    }
                                                                },
                                                            }
                                                        }
                                                    },
                                                }
                                            },
                                        }
                                    }
                                },
                            }
                        },
                    }
                }
            },
        }
    }
}

/// `definability_bound`, `definition_bound`.
pub open spec fn b_definability_bound_spec(env: CheckEnv, name: Seq<char>, args: Seq<ExprV>, amb: Seq<char>, line: usize) -> Result<PassportV, DiagnosticV>
    decreases 2 * args_size(args) + 1, args.len() + 1,
{
    proof {
        lemma_args_size(args);
    }
    if args.len() != 1 { Err(error_model(DiagnosticKind::DefinabilityError, Some(line), name + " expects one DefinableNat argument"@)) } else {
        match infer_spec(env, args[0], amb) {
            Err(d) => Err(d),
            Ok(value) => {
                if !(value.ty is DefinableNat) { Err(error_with_help(DiagnosticKind::DefinabilityError, line, "definability_bound requires DefinableNat"@, "value passport: "@ + passport_text(value))) } else {
                    match cap_error(value, Capability::CanExtractDefinabilityBound, line, "definability_bound requires can_extract_definability_bound"@) {
                        Some(d) => Err(d),
                        None => {
                            Ok(definability_resource_nat_model(amb, value, "definability:bound"@))
                        },
                    }
                }
            },
        }
    }
}

/// `definability_meta_level`, `definition_meta_level`.
pub open spec fn b_definability_meta_level_spec(env: CheckEnv, name: Seq<char>, args: Seq<ExprV>, amb: Seq<char>, line: usize) -> Result<PassportV, DiagnosticV>
    decreases 2 * args_size(args) + 1, args.len() + 1,
{
    proof {
        lemma_args_size(args);
    }
    if args.len() != 1 { Err(error_model(DiagnosticKind::DefinabilityError, Some(line), name + " expects one DefinableNat argument"@)) } else {
        match infer_spec(env, args[0], amb) {
            Err(d) => Err(d),
            Ok(value) => {
                if !(value.ty is DefinableNat) { Err(error_with_help(DiagnosticKind::DefinabilityError, line, "definability_meta_level requires DefinableNat"@, "value passport: "@ + passport_text(value))) } else {
                    match cap_error(value, Capability::CanExtractDefinabilityMeta, line, "definability_meta_level requires can_extract_definability_meta"@) {
                        Some(d) => Err(d),
                        None => {
                            Ok(definability_resource_nat_model(amb, value, "definability:meta_level"@))
                        },
                    }
                }
            },
        }
    }
}

/// `berry_number`, `smallest_undefinable`, `undefinable_nat`.
pub open spec fn b_berry_number_spec(env: CheckEnv, name: Seq<char>, args: Seq<ExprV>, amb: Seq<char>, line: usize) -> Result<PassportV, DiagnosticV>
{
    Err(error_with_help(DiagnosticKind::DefinabilityError, line, "bare undefinability/Berry-style construction is not allowed"@, "Definability must be relative: Definable<n, language, encoding, theory, bound, meta-level>. Use definable_nat(language_L0(), encoding_godel(), bound, meta_level(k)) for explicit definability passports."@))
}

/// `big_number`, `huge_number`.
pub open spec fn b_big_number_spec(env: CheckEnv, name: Seq<char>, args: Seq<ExprV>, amb: Seq<char>, line: usize) -> Result<PassportV, DiagnosticV>
{
    Err(error_with_help(DiagnosticKind::BigNumberError, line, "bare big_number is not allowed"@, "use an explicit constructor: Graham(), TREE(n), BB(n), or fast_growing(level)"@))
}

/// `Graham`, `graham`.
pub open spec fn b_graham_spec(env: CheckEnv, name: Seq<char>, args: Seq<ExprV>, amb: Seq<char>, line: usize) -> Result<PassportV, DiagnosticV>
{
    if args.len() != 0 { Err(error_model(DiagnosticKind::BigNumberError, Some(line), "Graham expects no arguments"@)) } else {
        Ok(big_nat_model(amb, "Graham"@, None, ConstructionMode::Recursive, CostClass::NonExpandable, "big_number:Graham"@))
    }
}

/// `TREE`, `tree`, `tree_number`.
pub open spec fn b_tree_spec(env: CheckEnv, name: Seq<char>, args: Seq<ExprV>, amb: Seq<char>, line: usize) -> Result<PassportV, DiagnosticV>
    decreases 2 * args_size(args) + 1, args.len() + 1,
{
    proof {
        lemma_args_size(args);
    }
    if args.len() != 1 { Err(error_model(DiagnosticKind::BigNumberError, Some(line), "TREE expects one positive literal Nat parameter in MVP"@)) } else {
        match literal_of(args[0]) {
            None => Err(error_model(DiagnosticKind::BigNumberError, Some(line), "TREE parameter must be a literal Nat in MVP"@)),
            Some(parameter) => {
                if parameter == 0 { Err(error_model(DiagnosticKind::BigNumberError, Some(line), "TREE parameter must be greater than zero"@)) } else {
                    match infer_spec(env, args[0], amb) {
                        Err(d) => Err(d),
                        Ok(arg) => {
                            match cap_error(arg, Capability::CanAddAsNat, line, "TREE argument must be Nat-like"@) {
                                Some(d) => Err(d),
                                None => {
                                    Ok(big_nat_model(amb, "TREE"@, Some(parameter), ConstructionMode::ProofFinite, CostClass::ProofRequired, "big_number:TREE:"@ + dec_text(parameter as nat)))
                                },
                            }
                        },
                    }
                }
            },
        }
    }
}

/// `BB`, `busy_beaver`.
pub open spec fn b_bb_spec(env: CheckEnv, name: Seq<char>, args: Seq<ExprV>, amb: Seq<char>, line: usize) -> Result<PassportV, DiagnosticV>
    decreases 2 * args_size(args) + 1, args.len() + 1,
{
    proof {
        lemma_args_size(args);
    }
    if args.len() != 1 { Err(error_model(DiagnosticKind::BigNumberError, Some(line), "BB expects one positive literal Nat parameter in MVP"@)) } else {
        match literal_of(args[0]) {
            None => Err(error_model(DiagnosticKind::BigNumberError, Some(line), "BB parameter must be a literal Nat in MVP"@)),
            Some(parameter) => {
                if parameter == 0 { Err(error_model(DiagnosticKind::BigNumberError, Some(line), "BB parameter must be greater than zero"@)) } else {
                    match infer_spec(env, args[0], amb) {
                        Err(d) => Err(d),
                        Ok(arg) => {
                            match cap_error(arg, Capability::CanAddAsNat, line, "BB argument must be Nat-like"@) {
                                Some(d) => Err(d),
                                None => {
                                    Ok(big_nat_model(amb, "BB"@, Some(parameter), ConstructionMode::Definable, CostClass::Uncomputable, "big_number:BB:"@ + dec_text(parameter as nat) + ":definable_noncomputable"@))
                                },
                            }
                        },
                    }
                }
            },
        }
    }
}

/// `fast_growing`, `FGH`.
pub open spec fn b_fast_growing_spec(env: CheckEnv, name: Seq<char>, args: Seq<ExprV>, amb: Seq<char>, line: usize) -> Result<PassportV, DiagnosticV>
{
    if args.len() != 1 { Err(error_model(DiagnosticKind::BigNumberError, Some(line), "fast_growing expects one positive literal Nat level in MVP"@)) } else {
        match literal_of(args[0]) {
            None => Err(error_model(DiagnosticKind::BigNumberError, Some(line), "fast_growing level must be a literal Nat in MVP"@)),
            Some(level) => {
                if level == 0 { Err(error_model(DiagnosticKind::BigNumberError, Some(line), "fast_growing level must be greater than zero"@)) } else {
                    Ok(big_nat_model(amb, "FGH"@, Some(level), ConstructionMode::Recursive, CostClass::Recursive, "big_number:fast_growing:"@ + dec_text(level as nat)))
                }
            },
        }
    }
}

/// `growth_parameter`, `big_number_parameter`.
pub open spec fn b_growth_parameter_spec(env: CheckEnv, name: Seq<char>, args: Seq<ExprV>, amb: Seq<char>, line: usize) -> Result<PassportV, DiagnosticV>
    decreases 2 * args_size(args) + 1, args.len() + 1,
{
    proof {
        lemma_args_size(args);
    }
    if args.len() != 1 { Err(error_model(DiagnosticKind::BigNumberError, Some(line), name + " expects one BigNat argument"@)) } else {
        match infer_spec(env, args[0], amb) {
            Err(d) => Err(d),
            Ok(value) => {
                if !(value.ty is BigNat) { Err(error_with_help(DiagnosticKind::BigNumberError, line, "growth_parameter requires BigNat"@, "value passport: "@ + passport_text(value))) } else {
                    match cap_error(value, Capability::CanExtractGrowthClass, line, "growth_parameter requires can_extract_growth_class"@) {
                        Some(d) => Err(d),
                        None => {
                            Ok(big_number_resource_nat_model(amb, value, "big_number:parameter"@))
                        },
                    }
                }
            },
        }
    }
}

/// `infinity`.
pub open spec fn b_infinity_spec(env: CheckEnv, name: Seq<char>, args: Seq<ExprV>, amb: Seq<char>, line: usize) -> Result<PassportV, DiagnosticV>
{
    Err(error_with_help(DiagnosticKind::InfinityModeError, line, "ambiguous infinity is not allowed"@, "use a typed infinity constructor: aleph0()/infinity_cardinal(), omega()/infinity_ordinal(), limit_omega(), potential_infinity(), class_infinity(class_of(U0())), or universe_infinity(U0())"@))
}

/// `aleph0`, `infinity_cardinal`.
pub open spec fn b_aleph0_spec(env: CheckEnv, name: Seq<char>, args: Seq<ExprV>, amb: Seq<char>, line: usize) -> Result<PassportV, DiagnosticV>
{
    if args.len() != 0 { Err(error_model(DiagnosticKind::ParseError, Some(line), name + " expects no arguments"@)) } else {
        Ok(cardinal_infinity_model(amb))
    }
}

/// `omega`, `infinity_ordinal`.
pub open spec fn b_omega_spec(env: CheckEnv, name: Seq<char>, args: Seq<ExprV>, amb: Seq<char>, line: usize) -> Result<PassportV, DiagnosticV>
{
    if args.len() != 0 { Err(error_model(DiagnosticKind::ParseError, Some(line), name + " expects no arguments"@)) } else {
        Ok(ordinal_infinity_model(amb))
    }
}

/// `limit_omega`, `infinity_limit`, `limit_infinity`.
pub open spec fn b_limit_omega_spec(env: CheckEnv, name: Seq<char>, args: Seq<ExprV>, amb: Seq<char>, line: usize) -> Result<PassportV, DiagnosticV>
{
    if args.len() != 0 { Err(error_model(DiagnosticKind::ParseError, Some(line), name + " expects no arguments"@)) } else {
        Ok(limit_infinity_model(amb))
    }
}

/// `potential_infinity`, `infinity_potential`.
pub open spec fn b_potential_infinity_spec(env: CheckEnv, name: Seq<char>, args: Seq<ExprV>, amb: Seq<char>, line: usize) -> Result<PassportV, DiagnosticV>
{
    if args.len() != 0 { Err(error_model(DiagnosticKind::ParseError, Some(line), name + " expects no arguments"@)) } else {
        Ok(potential_infinity_model(amb))
    }
}

/// `class_infinity`, `proper_class_infinity`.
pub open spec fn b_class_infinity_spec(env: CheckEnv, name: Seq<char>, args: Seq<ExprV>, amb: Seq<char>, line: usize) -> Result<PassportV, DiagnosticV>
    decreases 2 * args_size(args) + 1, args.len() + 1,
{
    proof {
        lemma_args_size(args);
    }
    if args.len() != 1 { Err(error_model(DiagnosticKind::ParseError, Some(line), name + " expects one Class argument"@)) } else {
        match infer_spec(env, args[0], amb) {
            Err(d) => Err(d),
            Ok(value) => {
                if !(value.ty is Class) { Err(error_with_help(DiagnosticKind::InfinityModeError, line, "class_infinity requires Class<U n>"@, "value passport: "@ + passport_text(value))) } else {
                    match cap_error(value, Capability::CanClassReason, line, "class_infinity requires can_class_reason"@) {
                        Some(d) => Err(d),
                        None => {
                            Ok(class_infinity_model(amb, value))
                        },
                    }
                }
            },
        }
    }
}

/// `universe_infinity`, `infinity_universe`.
pub open spec fn b_universe_infinity_spec(env: CheckEnv, name: Seq<char>, args: Seq<ExprV>, amb: Seq<char>, line: usize) -> Result<PassportV, DiagnosticV>
    decreases 2 * args_size(args) + 1, args.len() + 1,
{
    proof {
        lemma_args_size(args);
    }
    if args.len() != 1 { Err(error_model(DiagnosticKind::ParseError, Some(line), name + " expects one Universe argument"@)) } else {
        match infer_spec(env, args[0], amb) {
            Err(d) => Err(d),
            Ok(value) => {
                if !(value.ty is Universe) { Err(error_with_help(DiagnosticKind::UniverseLevelError, line, "universe_infinity requires Universe<U n>"@, "value passport: "@ + passport_text(value))) } else {
                    match cap_error(value, Capability::CanUniverseLevel, line, "universe_infinity requires can_universe_level"@) {
                        Some(d) => Err(d),
                        None => {
                            Ok(universe_infinity_model(amb, value))
                        },
                    }
                }
            },
        }
    }
}

/// `cardinal_succ`.
pub open spec fn b_cardinal_succ_spec(env: CheckEnv, name: Seq<char>, args: Seq<ExprV>, amb: Seq<char>, line: usize) -> Result<PassportV, DiagnosticV>
    decreases 2 * args_size(args) + 1, args.len() + 1,
{
    proof {
        lemma_args_size(args);
    }
    if args.len() != 1 { Err(error_model(DiagnosticKind::ParseError, Some(line), "cardinal_succ expects one cardinal infinity argument"@)) } else {
        match infer_spec(env, args[0], amb) {
            Err(d) => Err(d),
            Ok(value) => {
                if value.ty != (TypeKindV::Infinity { mode: InfinityMode::Cardinal }) { Err(error_with_help(DiagnosticKind::InfinityModeError, line, "cardinal_succ requires Infinity<cardinal>"@, "value passport: "@ + passport_text(value))) } else {
                    match cap_error(value, Capability::CanCardinalArithmetic, line, "cardinal_succ requires can_cardinal_arithmetic"@) {
                        Some(d) => Err(d),
                        None => {
                            Ok(infinity_succ_result_model(value, amb))
                        },
                    }
                }
            },
        }
    }
}

/// `ordinal_succ`.
pub open spec fn b_ordinal_succ_spec(env: CheckEnv, name: Seq<char>, args: Seq<ExprV>, amb: Seq<char>, line: usize) -> Result<PassportV, DiagnosticV>
    decreases 2 * args_size(args) + 1, args.len() + 1,
{
    proof {
        lemma_args_size(args);
    }
    if args.len() != 1 { Err(error_model(DiagnosticKind::ParseError, Some(line), "ordinal_succ expects one ordinal infinity argument"@)) } else {
        match infer_spec(env, args[0], amb) {
            Err(d) => Err(d),
            Ok(value) => {
                if value.ty != (TypeKindV::Infinity { mode: InfinityMode::Ordinal }) { Err(error_with_help(DiagnosticKind::InfinityModeError, line, "ordinal_succ requires Infinity<ordinal>"@, "value passport: "@ + passport_text(value))) } else {
                    match cap_error(value, Capability::CanOrdinalArithmetic, line, "ordinal_succ requires can_ordinal_arithmetic"@) {
                        Some(d) => Err(d),
                        None => {
                            Ok(infinity_succ_result_model(value, amb))
                        },
                    }
                }
            },
        }
    }
}

/// `cardinal_add`, `cardinal_sum`.
pub open spec fn b_cardinal_add_spec(env: CheckEnv, name: Seq<char>, args: Seq<ExprV>, amb: Seq<char>, line: usize) -> Result<PassportV, DiagnosticV>
    decreases 2 * args_size(args) + 1, args.len() + 1,
{
    proof {
        lemma_args_size(args);
    }
    if args.len() != 2 { Err(error_model(DiagnosticKind::ParseError, Some(line), name + " expects two cardinal infinity arguments"@)) } else {
        match infer_spec(env, args[0], amb) {
            Err(d) => Err(d),
            Ok(lhs) => {
                match infer_spec(env, args[1], amb) {
                    Err(d) => Err(d),
                    Ok(rhs) => {
                        if lhs.ty != (TypeKindV::Infinity { mode: InfinityMode::Cardinal }) { Err(error_with_help(DiagnosticKind::InfinityModeError, line, "cardinal_add requires Infinity<cardinal> on the left"@, "value passport: "@ + passport_text(lhs))) } else {
                            if rhs.ty != (TypeKindV::Infinity { mode: InfinityMode::Cardinal }) { Err(error_with_help(DiagnosticKind::InfinityModeError, line, "cardinal_add requires Infinity<cardinal> on the right"@, "value passport: "@ + passport_text(rhs))) } else {
                                match cap_error(lhs, Capability::CanCardinalArithmetic, line, "cardinal_add requires can_cardinal_arithmetic on the left"@) {
                                    Some(d) => Err(d),
                                    None => {
                                        match cap_error(rhs, Capability::CanCardinalArithmetic, line, "cardinal_add requires can_cardinal_arithmetic on the right"@) {
                                            Some(d) => Err(d),
                                            None => {
                                                Ok(infinity_binary_result_model(lhs, rhs, amb, "infinity:cardinal_add"@))
                                            },
                                        }
                                    },
                                }
                            }
                        }
                    },
                }
            },
        }
    }
}

/// `ordinal_add`, `ordinal_sum`.
pub open spec fn b_ordinal_add_spec(env: CheckEnv, name: Seq<char>, args: Seq<ExprV>, amb: Seq<char>, line: usize) -> Result<PassportV, DiagnosticV>
    decreases 2 * args_size(args) + 1, args.len() + 1,
{
    proof {
        lemma_args_size(args);
    }
    if args.len() != 2 { Err(error_model(DiagnosticKind::ParseError, Some(line), name + " expects two ordinal infinity arguments"@)) } else {
        match infer_spec(env, args[0], amb) {
            Err(d) => Err(d),
            Ok(lhs) => {
                match infer_spec(env, args[1], amb) {
                    Err(d) => Err(d),
                    Ok(rhs) => {
                        if lhs.ty != (TypeKindV::Infinity { mode: InfinityMode::Ordinal }) { Err(error_with_help(DiagnosticKind::InfinityModeError, line, "ordinal_add requires Infinity<ordinal> on the left"@, "value passport: "@ + passport_text(lhs))) } else {
                            if rhs.ty != (TypeKindV::Infinity { mode: InfinityMode::Ordinal }) { Err(error_with_help(DiagnosticKind::InfinityModeError, line, "ordinal_add requires Infinity<ordinal> on the right"@, "value passport: "@ + passport_text(rhs))) } else {
                                match cap_error(lhs, Capability::CanOrdinalArithmetic, line, "ordinal_add requires can_ordinal_arithmetic on the left"@) {
                                    Some(d) => Err(d),
                                    None => {
                                        match cap_error(rhs, Capability::CanOrdinalArithmetic, line, "ordinal_add requires can_ordinal_arithmetic on the right"@) {
                                            Some(d) => Err(d),
                                            None => {
                                                Ok(infinity_binary_result_model(lhs, rhs, amb, "infinity:ordinal_add"@))
                                            },
                                        }
                                    },
                                }
                            }
                        }
                    },
                }
            },
        }
    }
}

/// `potential_step`.
pub open spec fn b_potential_step_spec(env: CheckEnv, name: Seq<char>, args: Seq<ExprV>, amb: Seq<char>, line: usize) -> Result<PassportV, DiagnosticV>
    decreases 2 * args_size(args) + 1, args.len() + 1,
{
    proof {
        lemma_args_size(args);
    }
    if args.len() != 1 { Err(error_model(DiagnosticKind::ParseError, Some(line), "potential_step expects one potential infinity argument"@)) } else {
        match infer_spec(env, args[0], amb) {
            Err(d) => Err(d),
            Ok(value) => {
                if value.ty != (TypeKindV::Infinity { mode: InfinityMode::Potential }) { Err(error_with_help(DiagnosticKind::InfinityModeError, line, "potential_step requires Infinity<potential>"@, "value passport: "@ + passport_text(value))) } else {
                    match cap_error(value, Capability::CanLimitReason, line, "potential_step requires can_limit_reason"@) {
                        Some(d) => Err(d),
                        None => {
                            Ok(infinity_succ_result_model(value, amb))
                        },
                    }
                }
            },
        }
    }
}

/// `node_x86`, `node_x86_64`.
pub open spec fn b_node_x86_spec(env: CheckEnv, name: Seq<char>, args: Seq<ExprV>, amb: Seq<char>, line: usize) -> Result<PassportV, DiagnosticV>
{
    if args.len() != 0 { Err(error_model(DiagnosticKind::ParseError, Some(line), name + " expects no arguments"@)) } else {
        Ok(node_model(amb, NodeArch::X86_64, None, None))
    }
}

/// `node_arm`, `node_aarch64`.
pub open spec fn b_node_arm_spec(env: CheckEnv, name: Seq<char>, args: Seq<ExprV>, amb: Seq<char>, line: usize) -> Result<PassportV, DiagnosticV>
{
    if args.len() != 0 { Err(error_model(DiagnosticKind::ParseError, Some(line), name + " expects no arguments"@)) } else {
        Ok(node_model(amb, NodeArch::Aarch64, None, None))
    }
}

/// `node_x86_with`, `node_x86_64_with`.
pub open spec fn b_node_x86_with_spec(env: CheckEnv, name: Seq<char>, args: Seq<ExprV>, amb: Seq<char>, line: usize) -> Result<PassportV, DiagnosticV>
{
    if args.len() != 2 { Err(error_model(DiagnosticKind::ParseError, Some(line), name + " expects cores and memory_mib"@)) } else {
        match literal_of(args[0]) {
            None => Err(error_model(DiagnosticKind::DistributedResourceError, Some(line), "node_x86_64_with requires literal cores in MVP"@)),
            Some(cores) => {
                match literal_of(args[1]) {
                    None => Err(error_model(DiagnosticKind::DistributedResourceError, Some(line), "node_x86_64_with requires literal memory_mib in MVP"@)),
                    Some(memory_mib) => {
                        if cores == 0 { Err(error_model(DiagnosticKind::DistributedResourceError, Some(line), "node resource cores must be greater than zero"@)) } else {
                            if memory_mib == 0 { Err(error_model(DiagnosticKind::DistributedResourceError, Some(line), "node resource memory_mib must be greater than zero"@)) } else {
                                Ok(node_model(amb, NodeArch::X86_64, Some(cores), Some(memory_mib)))
                            }
                        }
                    },
                }
            },
        }
    }
}

/// `node_arm_with`, `node_aarch64_with`.
pub open spec fn b_node_arm_with_spec(env: CheckEnv, name: Seq<char>, args: Seq<ExprV>, amb: Seq<char>, line: usize) -> Result<PassportV, DiagnosticV>
{
    if args.len() != 2 { Err(error_model(DiagnosticKind::ParseError, Some(line), name + " expects cores and memory_mib"@)) } else {
        match literal_of(args[0]) {
            None => Err(error_model(DiagnosticKind::DistributedResourceError, Some(line), "node_aarch64_with requires literal cores in MVP"@)),
            Some(cores) => {
                match literal_of(args[1]) {
                    None => Err(error_model(DiagnosticKind::DistributedResourceError, Some(line), "node_aarch64_with requires literal memory_mib in MVP"@)),
                    Some(memory_mib) => {
                        if cores == 0 { Err(error_model(DiagnosticKind::DistributedResourceError, Some(line), "node resource cores must be greater than zero"@)) } else {
                            if memory_mib == 0 { Err(error_model(DiagnosticKind::DistributedResourceError, Some(line), "node resource memory_mib must be greater than zero"@)) } else {
                                Ok(node_model(amb, NodeArch::Aarch64, Some(cores), Some(memory_mib)))
                            }
                        }
                    },
                }
            },
        }
    }
}

/// `gpu_cuda`, `gpu_device_cuda`.
pub open spec fn b_gpu_cuda_spec(env: CheckEnv, name: Seq<char>, args: Seq<ExprV>, amb: Seq<char>, line: usize) -> Result<PassportV, DiagnosticV>
{
    if args.len() != 0 { Err(error_model(DiagnosticKind::ParseError, Some(line), name + " expects no arguments"@)) } else {
        Ok(gpu_device_with_model(amb, GpuBackend::Cuda, Some(8192)))
    }
}

/// `gpu_rocm`, `gpu_device_rocm`.
pub open spec fn b_gpu_rocm_spec(env: CheckEnv, name: Seq<char>, args: Seq<ExprV>, amb: Seq<char>, line: usize) -> Result<PassportV, DiagnosticV>
{
    if args.len() != 0 { Err(error_model(DiagnosticKind::ParseError, Some(line), name + " expects no arguments"@)) } else {
        Ok(gpu_device_with_model(amb, GpuBackend::Rocm, Some(8192)))
    }
}

/// `gpu_cuda_with`, `gpu_device_cuda_with`.
pub open spec fn b_gpu_cuda_with_spec(env: CheckEnv, name: Seq<char>, args: Seq<ExprV>, amb: Seq<char>, line: usize) -> Result<PassportV, DiagnosticV>
{
    if args.len() != 1 { Err(error_model(DiagnosticKind::ParseError, Some(line), name + " expects memory_mib"@)) } else {
        match literal_of(args[0]) {
            None => Err(error_model(DiagnosticKind::DistributedResourceError, Some(line), "gpu_cuda_with requires literal memory_mib in MVP"@)),
            Some(memory_mib) => {
                if memory_mib == 0 { Err(error_model(DiagnosticKind::DistributedResourceError, Some(line), "node resource gpu_memory_mib must be greater than zero"@)) } else {
                    Ok(gpu_device_with_model(amb, GpuBackend::Cuda, Some(memory_mib)))
                }
            },
        }
    }
}

/// `gpu_rocm_with`, `gpu_device_rocm_with`.
pub open spec fn b_gpu_rocm_with_spec(env: CheckEnv, name: Seq<char>, args: Seq<ExprV>, amb: Seq<char>, line: usize) -> Result<PassportV, DiagnosticV>
{
    if args.len() != 1 { Err(error_model(DiagnosticKind::ParseError, Some(line), name + " expects memory_mib"@)) } else {
        match literal_of(args[0]) {
            None => Err(error_model(DiagnosticKind::DistributedResourceError, Some(line), "gpu_rocm_with requires literal memory_mib in MVP"@)),
            Some(memory_mib) => {
                if memory_mib == 0 { Err(error_model(DiagnosticKind::DistributedResourceError, Some(line), "node resource gpu_memory_mib must be greater than zero"@)) } else {
                    Ok(gpu_device_with_model(amb, GpuBackend::Rocm, Some(memory_mib)))
                }
            },
        }
    }
}

/// `gpu_pool`, `virtual_gpu_pool`.
pub open spec fn b_gpu_pool_spec(env: CheckEnv, name: Seq<char>, args: Seq<ExprV>, amb: Seq<char>, line: usize) -> Result<PassportV, DiagnosticV>
    decreases 2 * args_size(args) + 1, args.len() + 1,
{
    proof {
        lemma_args_size(args);
    }
    if args.len() == 0 { Err(error_model(DiagnosticKind::ParseError, Some(line), name + " expects at least one GpuDevice argument"@)) } else {
        match gpu_devices_spec(env, args, amb, line, args.len() as int) {
            Err(d) => Err(d),
            Ok(devices) => {
                Ok(gpu_pool_model(amb, devices))
            },
        }
    }
}

/// `virtual_pool`, `virtual_cluster`.
pub open spec fn b_virtual_pool_spec(env: CheckEnv, name: Seq<char>, args: Seq<ExprV>, amb: Seq<char>, line: usize) -> Result<PassportV, DiagnosticV>
    decreases 2 * args_size(args) + 1, args.len() + 1,
{
    proof {
        lemma_args_size(args);
    }
    if args.len() == 0 { Err(error_model(DiagnosticKind::ParseError, Some(line), name + " expects at least one Node argument"@)) } else {
        match pool_nodes_spec(env, args, amb, line, args.len() as int) {
            Err(d) => Err(d),
            Ok(nodes) => {
                Ok(virtual_cluster_model(amb, nodes))
            },
        }
    }
}

/// `distributed_gpu_memory`, `allocate_gpu_memory`, `gpu_memory_region`.
pub open spec fn b_distributed_gpu_memory_spec(env: CheckEnv, name: Seq<char>, args: Seq<ExprV>, amb: Seq<char>, line: usize) -> Result<PassportV, DiagnosticV>
    decreases 2 * args_size(args) + 1, args.len() + 1,
{
    proof {
        lemma_args_size(args);
    }
    if args.len() != 2 { Err(error_model(DiagnosticKind::ParseError, Some(line), name + " expects gpu_pool and memory_mib"@)) } else {
        match infer_spec(env, args[0], amb) {
            Err(d) => Err(d),
            Ok(pool) => {
                match cap_error(pool, Capability::CanAllocateGpuMemory, line, "distributed_gpu_memory requires a GpuPool with can_allocate_gpu_memory"@) {
                    Some(d) => Err(d),
                    None => {
                        if !(pool.ty is GpuPool) { Err(error_with_help(DiagnosticKind::DistributedResourceError, line, "distributed_gpu_memory expects a GpuPool as its first argument"@, "pool passport: "@ + passport_text(pool))) } else {
                            match literal_of(args[1]) {
                                None => Err(error_model(DiagnosticKind::DistributedResourceError, Some(line), "distributed_gpu_memory requires literal memory_mib in MVP"@)),
                                Some(requested_mib) => {
                                    if requested_mib == 0 { Err(error_model(DiagnosticKind::DistributedResourceError, Some(line), "node resource gpu_memory_mib must be greater than zero"@)) } else {
                                        if resource_total(pool.history, "gpu_resource:memory_mib:"@) is Some && requested_mib > resource_total(pool.history, "gpu_resource:memory_mib:"@)->0 { Err(error_with_help(DiagnosticKind::DistributedResourceError, line, "distributed_gpu_memory request "@ + dec_text(requested_mib as nat) + " MiB exceeds GpuPool memory "@ + dec_text(resource_total(pool.history, "gpu_resource:memory_mib:"@)->0 as nat) + " MiB"@, "request a smaller GPU region or add more GPU memory-capable devices to the pool"@)) } else {
                                            Ok(distributed_gpu_memory_region_model(amb, pool, requested_mib))
                                        }
                                    }
                                },
                            }
                        }
                    },
                }
            },
        }
    }
}

/// `gpu_memory_mib`, `distributed_gpu_memory_mib`.
pub open spec fn b_gpu_memory_mib_spec(env: CheckEnv, name: Seq<char>, args: Seq<ExprV>, amb: Seq<char>, line: usize) -> Result<PassportV, DiagnosticV>
    decreases 2 * args_size(args) + 1, args.len() + 1,
{
    proof {
        lemma_args_size(args);
    }
    if args.len() != 1 { Err(error_model(DiagnosticKind::ParseError, Some(line), name + " expects one DistributedGpuMemory argument"@)) } else {
        match infer_spec(env, args[0], amb) {
            Err(d) => Err(d),
            Ok(region) => {
                match cap_error(region, Capability::CanUseGpuMemory, line, "gpu_memory_mib requires can_use_gpu_memory"@) {
                    Some(d) => Err(d),
                    None => {
                        if !(region.ty is DistributedGpuMemory) { Err(error_with_help(DiagnosticKind::DistributedResourceError, line, "gpu_memory_mib expects a DistributedGpuMemory value"@, "value passport: "@ + passport_text(region))) } else {
                            Ok(gpu_memory_resource_nat_model(amb, region, "gpu_memory:region_mib"@))
                        }
                    },
                }
            },
        }
    }
}

/// `copy_to_gpu`, `gpu_upload`, `upload_to_gpu`.
pub open spec fn b_copy_to_gpu_spec(env: CheckEnv, name: Seq<char>, args: Seq<ExprV>, amb: Seq<char>, line: usize) -> Result<PassportV, DiagnosticV>
    decreases 2 * args_size(args) + 1, args.len() + 1,
{
    proof {
        lemma_args_size(args);
    }
    if args.len() != 2 { Err(error_model(DiagnosticKind::ParseError, Some(line), name + " expects source value and DistributedGpuMemory region"@)) } else {
        match infer_spec(env, args[0], amb) {
            Err(d) => Err(d),
            Ok(source) => {
                match cap_error(source, Capability::CanSerializeForMigration, line, "copy_to_gpu source requires can_serialize_for_migration"@) {
                    Some(d) => Err(d),
                    None => {
                        match infer_spec(env, args[1], amb) {
                            Err(d) => Err(d),
                            Ok(region) => {
                                match cap_error(region, Capability::CanUseGpuMemory, line, "copy_to_gpu requires can_use_gpu_memory on the target region"@) {
                                    Some(d) => Err(d),
                                    None => {
                                        match cap_error(region, Capability::CanCopyCpuToGpu, line, "copy_to_gpu target region requires can_copy_cpu_to_gpu"@) {
                                            Some(d) => Err(d),
                                            None => {
                                                if !(region.ty is DistributedGpuMemory) { Err(error_with_help(DiagnosticKind::DistributedResourceError, line, "copy_to_gpu expects a DistributedGpuMemory region as second argument"@, "region passport: "@ + passport_text(region))) } else {
                                                    Ok(gpu_value_model(amb, source, region))
                                                }
                                            },
                                        }
                                    },
                                }
                            },
                        }
                    },
                }
            },
        }
    }
}

/// `copy_from_gpu`, `gpu_download`, `download_from_gpu`.
pub open spec fn b_copy_from_gpu_spec(env: CheckEnv, name: Seq<char>, args: Seq<ExprV>, amb: Seq<char>, line: usize) -> Result<PassportV, DiagnosticV>
    decreases 2 * args_size(args) + 1, args.len() + 1,
{
    proof {
        lemma_args_size(args);
    }
    if args.len() != 1 { Err(error_model(DiagnosticKind::ParseError, Some(line), name + " expects one GpuValue"@)) } else {
        match infer_spec(env, args[0], amb) {
            Err(d) => Err(d),
            Ok(value) => {
                match cap_error(value, Capability::CanCopyGpuToCpu, line, "copy_from_gpu requires can_copy_gpu_to_cpu"@) {
                    Some(d) => Err(d),
                    None => {
                        if !(value.ty is GpuValue) { Err(error_with_help(DiagnosticKind::DistributedResourceError, line, "copy_from_gpu expects a GpuValue<T>"@, "value passport: "@ + passport_text(value))) } else {
                            Ok(copied_from_gpu_model(amb, value))
                        }
                    },
                }
            },
        }
    }
}

/// `compile_gpu_kernel`, `gpu_kernel`, `make_gpu_kernel`.
pub open spec fn b_compile_gpu_kernel_spec(env: CheckEnv, name: Seq<char>, args: Seq<ExprV>, amb: Seq<char>, line: usize) -> Result<PassportV, DiagnosticV>
    decreases 2 * args_size(args) + 1, args.len() + 1,
{
    proof {
        lemma_args_size(args);
    }
    if args.len() != 1 { Err(error_model(DiagnosticKind::ParseError, Some(line), name + " expects one compilable value"@)) } else {
        match infer_spec(env, args[0], amb) {
            Err(d) => Err(d),
            Ok(source) => {
                match cap_error(source, Capability::CanCompileGpuKernel, line, "compile_gpu_kernel requires can_compile_gpu_kernel"@) {
                    Some(d) => Err(d),
                    None => {
                        match cap_error(source, Capability::CanSerializeForMigration, line, "compile_gpu_kernel requires can_serialize_for_migration"@) {
                            Some(d) => Err(d),
                            None => {
                                Ok(gpu_kernel_model(amb, source))
                            },
                        }
                    },
                }
            },
        }
    }
}

/// `launch_kernel`, `launch_gpu_kernel`, `gpu_launch`.
pub open spec fn b_launch_kernel_spec(env: CheckEnv, name: Seq<char>, args: Seq<ExprV>, amb: Seq<char>, line: usize) -> Result<PassportV, DiagnosticV>
    decreases 2 * args_size(args) + 1, args.len() + 1,
{
    proof {
        lemma_args_size(args);
    }
    if args.len() != 2 { Err(error_model(DiagnosticKind::ParseError, Some(line), name + " expects DistributedGpuMemory and GpuKernel"@)) } else {
        match infer_spec(env, args[0], amb) {
            Err(d) => Err(d),
            Ok(region) => {
                match cap_error(region, Capability::CanUseGpuMemory, line, "launch_kernel requires can_use_gpu_memory on the target region"@) {
                    Some(d) => Err(d),
                    None => {
                        match cap_error(region, Capability::CanLaunchGpuKernel, line, "launch_kernel target region requires can_launch_gpu_kernel"@) {
                            Some(d) => Err(d),
                            None => {
                                if !(region.ty is DistributedGpuMemory) { Err(error_with_help(DiagnosticKind::DistributedResourceError, line, "launch_kernel expects a DistributedGpuMemory region as first argument"@, "region passport: "@ + passport_text(region))) } else {
                                    match infer_spec(env, args[1], amb) {
                                        Err(d) => Err(d),
                                        Ok(kernel) => {
                                            match cap_error(kernel, Capability::CanLaunchGpuKernel, line, "launch_kernel requires a GpuKernel with can_launch_gpu_kernel"@) {
                                                Some(d) => Err(d),
                                                None => {
                                                    if !(kernel.ty is GpuKernel) { Err(error_with_help(DiagnosticKind::DistributedResourceError, line, "launch_kernel expects a GpuKernel<T> as second argument"@, "kernel passport: "@ + passport_text(kernel))) } else {
                                                        Ok(launched_gpu_kernel_model(amb, region, kernel))
                                                    }
                                                },
                                            }
                                        },
                                    }
                                }
                            },
                        }
                    },
                }
            },
        }
    }
}

/// `pool_cores`, `cluster_cores`.
pub open spec fn b_pool_cores_spec(env: CheckEnv, name: Seq<char>, args: Seq<ExprV>, amb: Seq<char>, line: usize) -> Result<PassportV, DiagnosticV>
    decreases 2 * args_size(args) + 1, args.len() + 1,
{
    proof {
        lemma_args_size(args);
    }
    if args.len() != 1 { Err(error_model(DiagnosticKind::ParseError, Some(line), name + " expects one VirtualCluster argument"@)) } else {
        match infer_spec(env, args[0], amb) {
            Err(d) => Err(d),
            Ok(pool) => {
                match cap_error(pool, Capability::CanVirtualizeCores, line, "pool_cores requires can_virtualize_cores"@) {
                    Some(d) => Err(d),
                    None => {
                        if !(pool.ty is VirtualCluster) { Err(error_with_help(DiagnosticKind::DistributedResourceError, line, "pool_cores expects a VirtualCluster value"@, "value passport: "@ + passport_text(pool))) } else {
                            Ok(cluster_resource_nat_model(amb, pool, "cluster:pool_cores"@))
                        }
                    },
                }
            },
        }
    }
}

/// `pool_memory_mib`, `cluster_memory_mib`.
pub open spec fn b_pool_memory_mib_spec(env: CheckEnv, name: Seq<char>, args: Seq<ExprV>, amb: Seq<char>, line: usize) -> Result<PassportV, DiagnosticV>
    decreases 2 * args_size(args) + 1, args.len() + 1,
{
    proof {
        lemma_args_size(args);
    }
    if args.len() != 1 { Err(error_model(DiagnosticKind::ParseError, Some(line), name + " expects one VirtualCluster argument"@)) } else {
        match infer_spec(env, args[0], amb) {
            Err(d) => Err(d),
            Ok(pool) => {
                match cap_error(pool, Capability::CanVirtualizeMemory, line, "pool_memory_mib requires can_virtualize_memory"@) {
                    Some(d) => Err(d),
                    None => {
                        if !(pool.ty is VirtualCluster) { Err(error_with_help(DiagnosticKind::DistributedResourceError, line, "pool_memory_mib expects a VirtualCluster value"@, "value passport: "@ + passport_text(pool))) } else {
                            Ok(cluster_resource_nat_model(amb, pool, "cluster:pool_memory_mib"@))
                        }
                    },
                }
            },
        }
    }
}

/// `distributed_memory`, `allocate_memory`, `memory_region`.
pub open spec fn b_distributed_memory_spec(env: CheckEnv, name: Seq<char>, args: Seq<ExprV>, amb: Seq<char>, line: usize) -> Result<PassportV, DiagnosticV>
    decreases 2 * args_size(args) + 1, args.len() + 1,
{
    proof {
        lemma_args_size(args);
    }
    if args.len() != 2 { Err(error_model(DiagnosticKind::ParseError, Some(line), name + " expects pool and memory_mib"@)) } else {
        match infer_spec(env, args[0], amb) {
            Err(d) => Err(d),
            Ok(pool) => {
                match cap_error(pool, Capability::CanAllocateDistributedMemory, line, "distributed_memory requires a VirtualCluster with can_allocate_distributed_memory"@) {
                    Some(d) => Err(d),
                    None => {
                        if !(pool.ty is VirtualCluster) { Err(error_with_help(DiagnosticKind::DistributedResourceError, line, "distributed_memory expects a VirtualCluster as its first argument"@, "pool passport: "@ + passport_text(pool))) } else {
                            match literal_of(args[1]) {
                                None => Err(error_model(DiagnosticKind::DistributedResourceError, Some(line), "distributed_memory requires literal memory_mib in MVP"@)),
                                Some(requested_mib) => {
                                    if requested_mib == 0 { Err(error_model(DiagnosticKind::DistributedResourceError, Some(line), "node resource memory_mib must be greater than zero"@)) } else {
                                        if resource_total(pool.history, "node_resource:memory_mib:"@) is Some && requested_mib > resource_total(pool.history, "node_resource:memory_mib:"@)->0 { Err(error_with_help(DiagnosticKind::DistributedResourceError, line, "distributed_memory request "@ + dec_text(requested_mib as nat) + " MiB exceeds VirtualCluster memory "@ + dec_text(resource_total(pool.history, "node_resource:memory_mib:"@)->0 as nat) + " MiB"@, "request a smaller region or add more memory-capable nodes to the pool"@)) } else {
                                            Ok(distributed_memory_region_model(amb, pool, requested_mib))
                                        }
                                    }
                                },
                            }
                        }
                    },
                }
            },
        }
    }
}

/// `memory_region_mib`, `distributed_memory_mib`.
pub open spec fn b_memory_region_mib_spec(env: CheckEnv, name: Seq<char>, args: Seq<ExprV>, amb: Seq<char>, line: usize) -> Result<PassportV, DiagnosticV>
    decreases 2 * args_size(args) + 1, args.len() + 1,
{
    proof {
        lemma_args_size(args);
    }
    if args.len() != 1 { Err(error_model(DiagnosticKind::ParseError, Some(line), name + " expects one DistributedMemory argument"@)) } else {
        match infer_spec(env, args[0], amb) {
            Err(d) => Err(d),
            Ok(region) => {
                match cap_error(region, Capability::CanUseDistributedMemory, line, "memory_region_mib requires can_use_distributed_memory"@) {
                    Some(d) => Err(d),
                    None => {
                        if !(region.ty is DistributedMemory) { Err(error_with_help(DiagnosticKind::DistributedResourceError, line, "memory_region_mib expects a DistributedMemory value"@, "value passport: "@ + passport_text(region))) } else {
                            Ok(memory_region_resource_nat_model(amb, region, "memory:region_mib"@))
                        }
                    },
                }
            },
        }
    }
}

/// `checkpoint_memory`, `checkpoint`, `checkpoint_region`.
pub open spec fn b_checkpoint_memory_spec(env: CheckEnv, name: Seq<char>, args: Seq<ExprV>, amb: Seq<char>, line: usize) -> Result<PassportV, DiagnosticV>
    decreases 2 * args_size(args) + 1, args.len() + 1,
{
    proof {
        lemma_args_size(args);
    }
    if args.len() != 1 { Err(error_model(DiagnosticKind::ParseError, Some(line), name + " expects one DistributedMemory argument"@)) } else {
        match infer_spec(env, args[0], amb) {
            Err(d) => Err(d),
            Ok(region) => {
                match cap_error(region, Capability::CanCheckpointMemory, line, "checkpoint_memory requires can_checkpoint_memory"@) {
                    Some(d) => Err(d),
                    None => {
                        if !(region.ty is DistributedMemory) { Err(error_with_help(DiagnosticKind::DistributedResourceError, line, "checkpoint_memory expects a DistributedMemory value"@, "value passport: "@ + passport_text(region))) } else {
                            Ok(memory_checkpoint_model(amb, region))
                        }
                    },
                }
            },
        }
    }
}

/// `restore_checkpoint`, `restore_memory`, `restore`.
pub open spec fn b_restore_checkpoint_spec(env: CheckEnv, name: Seq<char>, args: Seq<ExprV>, amb: Seq<char>, line: usize) -> Result<PassportV, DiagnosticV>
    decreases 2 * args_size(args) + 1, args.len() + 1,
{
    proof {
        lemma_args_size(args);
    }
    if args.len() != 1 { Err(error_model(DiagnosticKind::ParseError, Some(line), name + " expects one MemoryCheckpoint argument"@)) } else {
        match infer_spec(env, args[0], amb) {
            Err(d) => Err(d),
            Ok(checkpoint) => {
                match cap_error(checkpoint, Capability::CanRestoreCheckpoint, line, "restore_checkpoint requires can_restore_checkpoint"@) {
                    Some(d) => Err(d),
                    None => {
                        if !(checkpoint.ty is MemoryCheckpoint) { Err(error_with_help(DiagnosticKind::DistributedResourceError, line, "restore_checkpoint expects a MemoryCheckpoint value"@, "value passport: "@ + passport_text(checkpoint))) } else {
                            Ok(restored_memory_region_model(amb, checkpoint))
                        }
                    },
                }
            },
        }
    }
}

/// `compile_portable`, `portable_code`, `make_portable`.
pub open spec fn b_compile_portable_spec(env: CheckEnv, name: Seq<char>, args: Seq<ExprV>, amb: Seq<char>, line: usize) -> Result<PassportV, DiagnosticV>
    decreases 2 * args_size(args) + 1, args.len() + 1,
{
    proof {
        lemma_args_size(args);
    }
    if args.len() != 1 { Err(error_model(DiagnosticKind::ParseError, Some(line), name + " expects one serializable value"@)) } else {
        match infer_spec(env, args[0], amb) {
            Err(d) => Err(d),
            Ok(source) => {
                match cap_error(source, Capability::CanCompilePortableCode, line, "compile_portable requires can_compile_portable_code"@) {
                    Some(d) => Err(d),
                    None => {
                        match cap_error(source, Capability::CanSerializeForMigration, line, "compile_portable requires can_serialize_for_migration"@) {
                            Some(d) => Err(d),
                            None => {
                                Ok(portable_code_model(amb, source))
                            },
                        }
                    },
                }
            },
        }
    }
}

/// `deploy_portable`, `deploy_code`.
pub open spec fn b_deploy_portable_spec(env: CheckEnv, name: Seq<char>, args: Seq<ExprV>, amb: Seq<char>, line: usize) -> Result<PassportV, DiagnosticV>
    decreases 2 * args_size(args) + 1, args.len() + 1,
{
    proof {
        lemma_args_size(args);
    }
    if args.len() != 2 { Err(error_model(DiagnosticKind::ParseError, Some(line), name + " expects target node and PortableCode"@)) } else {
        match infer_spec(env, args[0], amb) {
            Err(d) => Err(d),
            Ok(target) => {
                match cap_error(target, Capability::CanAcceptMigration, line, "deploy_portable target requires can_accept_migration"@) {
                    Some(d) => Err(d),
                    None => {
                        match node_arch_of(target.ty) {
                            None => Err(error_with_help(DiagnosticKind::MigrationBridgeError, line, "deploy_portable target must be Node<x86_64> or Node<aarch64>"@, "target passport: "@ + passport_text(target))),
                            Some(target_arch) => {
                                match infer_spec(env, args[1], amb) {
                                    Err(d) => Err(d),
                                    Ok(code) => {
                                        match cap_error(code, Capability::CanDeployPortableCode, line, "deploy_portable requires can_deploy_portable_code"@) {
                                            Some(d) => Err(d),
                                            None => {
                                                if !(code.ty is PortableCode) { Err(error_with_help(DiagnosticKind::DistributedResourceError, line, "deploy_portable expects a PortableCode<T> value"@, "code passport: "@ + passport_text(code))) } else {
                                                    {
                                                        let ev = "portable:deploy:to:"@ + target_arch.display_text();
                                                        Ok(deployed_portable_code_model(amb, code, target, target_arch, ev))
                                                    }
                                                }
                                            },
                                        }
                                    },
                                }
                            },
                        }
                    },
                }
            },
        }
    }
}

/// `deploy_on`, `deploy_to_pool`.
pub open spec fn b_deploy_on_spec(env: CheckEnv, name: Seq<char>, args: Seq<ExprV>, amb: Seq<char>, line: usize) -> Result<PassportV, DiagnosticV>
    decreases 2 * args_size(args) + 1, args.len() + 1,
{
    proof {
        lemma_args_size(args);
    }
    if args.len() != 3 { Err(error_model(DiagnosticKind::ParseError, Some(line), name + " expects pool, target node and PortableCode"@)) } else {
        match infer_spec(env, args[0], amb) {
            Err(d) => Err(d),
            Ok(pool) => {
                match cap_error(pool, Capability::CanScheduleRuntime, line, "deploy_on requires a VirtualCluster with can_schedule_runtime"@) {
                    Some(d) => Err(d),
                    None => {
                        if !(pool.ty is VirtualCluster) { Err(error_with_help(DiagnosticKind::DistributedResourceError, line, "deploy_on expects a VirtualCluster as its first argument"@, "pool passport: "@ + passport_text(pool))) } else {
                            match infer_spec(env, args[1], amb) {
                                Err(d) => Err(d),
                                Ok(target) => {
                                    match cap_error(target, Capability::CanAcceptMigration, line, "deploy_on target requires can_accept_migration"@) {
                                        Some(d) => Err(d),
                                        None => {
                                            match node_arch_of(target.ty) {
                                                None => Err(error_with_help(DiagnosticKind::MigrationBridgeError, line, "deploy_on target must be Node<x86_64> or Node<aarch64>"@, "target passport: "@ + passport_text(target))),
                                                Some(target_arch) => {
                                                    match infer_spec(env, args[2], amb) {
                                                        Err(d) => Err(d),
                                                        Ok(code) => {
                                                            match cap_error(code, Capability::CanDeployPortableCode, line, "deploy_on requires can_deploy_portable_code"@) {
                                                                Some(d) => Err(d),
                                                                None => {
                                                                    if !(code.ty is PortableCode) { Err(error_with_help(DiagnosticKind::DistributedResourceError, line, "deploy_on expects PortableCode<T> as its third argument"@, "code passport: "@ + passport_text(code))) } else {
                                                                        {
                                                                            let ev = "portable:deploy_on:to:"@ + target_arch.display_text();
                                                                            Ok(deployed_on_pool_model(amb, pool, code, target, target_arch, ev))
                                                                        }
                                                                    }
                                                                },
                                                            }
                                                        },
                                                    }
                                                },
                                            }
                                        },
                                    }
                                },
                            }
                        }
                    },
                }
            },
        }
    }
}

/// `materialize_remote`, `materialize`, `fetch_remote`, `collect_remote`.
pub open spec fn b_materialize_remote_spec(env: CheckEnv, name: Seq<char>, args: Seq<ExprV>, amb: Seq<char>, line: usize) -> Result<PassportV, DiagnosticV>
    decreases 2 * args_size(args) + 1, args.len() + 1,
{
    proof {
        lemma_args_size(args);
    }
    if args.len() != 1 { Err(error_model(DiagnosticKind::ParseError, Some(line), name + " expects one Remote value"@)) } else {
        match args[0].kind {
            ExprKindV::QualifiedIdent { theory: q_theory, name: q_name } => match lookup_qualified_spec(env, q_theory, q_name, q_theory, line) {
                Err(d) => Err(d),
                Ok(p) => {
                    let source_theory = q_theory;
                    let remote = p;
                    if source_theory != amb {
                        match first_bridge(env.bridges, source_theory, amb, BridgeKindV::Materialize) {
                            None => Err(error_with_help(DiagnosticKind::TheoryBridgeError, line, "no materialize bridge from theory "@ + source_theory + " to "@ + amb + " in scope"@, "declare or import: bridge Name : Source -> Target { kind = materialize }"@)),
                            Some(bridge) => {
                                let bname = bridge.name;
                                match cap_error(remote, Capability::CanMaterializeRemote, line, "materialize_remote requires can_materialize_remote"@) {
                                    Some(d) => Err(d),
                                    None => {
                                        if !(remote.ty is Remote) { Err(error_with_help(DiagnosticKind::DistributedResourceError, line, "materialize_remote expects a Remote<T@arch> value"@, "value passport: "@ + passport_text(remote))) } else {
                                            Ok(materialized_remote_model(amb, remote, bname))
                                        }
                                    },
                                }
                            },
                        }
                    } else {
                        match cap_error(remote, Capability::CanMaterializeRemote, line, "materialize_remote requires can_materialize_remote"@) {
                            Some(d) => Err(d),
                            None => {
                                if !(remote.ty is Remote) { Err(error_with_help(DiagnosticKind::DistributedResourceError, line, "materialize_remote expects a Remote<T@arch> value"@, "value passport: "@ + passport_text(remote))) } else {
                                    Ok(materialized_remote_model(amb, remote, "local_materialize"@))
                                }
                            },
                        }
                    }
                },
            },
            _ => match infer_spec(env, args[0], amb) {
                Err(d) => Err(d),
                Ok(p) => {
                    let source_theory = amb;
                    let remote = p;
                    if source_theory != amb {
                        match first_bridge(env.bridges, source_theory, amb, BridgeKindV::Materialize) {
                            None => Err(error_with_help(DiagnosticKind::TheoryBridgeError, line, "no materialize bridge from theory "@ + source_theory + " to "@ + amb + " in scope"@, "declare or import: bridge Name : Source -> Target { kind = materialize }"@)),
                            Some(bridge) => {
                                let bname = bridge.name;
                                match cap_error(remote, Capability::CanMaterializeRemote, line, "materialize_remote requires can_materialize_remote"@) {
                                    Some(d) => Err(d),
                                    None => {
                                        if !(remote.ty is Remote) { Err(error_with_help(DiagnosticKind::DistributedResourceError, line, "materialize_remote expects a Remote<T@arch> value"@, "value passport: "@ + passport_text(remote))) } else {
                                            Ok(materialized_remote_model(amb, remote, bname))
                                        }
                                    },
                                }
                            },
                        }
                    } else {
                        match cap_error(remote, Capability::CanMaterializeRemote, line, "materialize_remote requires can_materialize_remote"@) {
                            Some(d) => Err(d),
                            None => {
                                if !(remote.ty is Remote) { Err(error_with_help(DiagnosticKind::DistributedResourceError, line, "materialize_remote expects a Remote<T@arch> value"@, "value passport: "@ + passport_text(remote))) } else {
                                    Ok(materialized_remote_model(amb, remote, "local_materialize"@))
                                }
                            },
                        }
                    }
                },
            },
        }
    }
}

/// `checkpoint_remote`, `checkpoint_job`, `checkpoint_remote_job`.
pub open spec fn b_checkpoint_remote_spec(env: CheckEnv, name: Seq<char>, args: Seq<ExprV>, amb: Seq<char>, line: usize) -> Result<PassportV, DiagnosticV>
    decreases 2 * args_size(args) + 1, args.len() + 1,
{
    proof {
        lemma_args_size(args);
    }
    if args.len() != 1 { Err(error_model(DiagnosticKind::ParseError, Some(line), name + " expects one Remote value"@)) } else {
        match infer_spec(env, args[0], amb) {
            Err(d) => Err(d),
            Ok(remote) => {
                match cap_error(remote, Capability::CanCheckpointRemote, line, "checkpoint_remote requires can_checkpoint_remote"@) {
                    Some(d) => Err(d),
                    None => {
                        if !(remote.ty is Remote) { Err(error_with_help(DiagnosticKind::DistributedResourceError, line, "checkpoint_remote expects a Remote<T@arch> value"@, "value passport: "@ + passport_text(remote))) } else {
                            Ok(remote_checkpoint_model(amb, remote))
                        }
                    },
                }
            },
        }
    }
}

/// `restore_remote`, `restore_job`, `restore_remote_checkpoint`.
pub open spec fn b_restore_remote_spec(env: CheckEnv, name: Seq<char>, args: Seq<ExprV>, amb: Seq<char>, line: usize) -> Result<PassportV, DiagnosticV>
    decreases 2 * args_size(args) + 1, args.len() + 1,
{
    proof {
        lemma_args_size(args);
    }
    if args.len() != 2 { Err(error_model(DiagnosticKind::ParseError, Some(line), name + " expects target node and RemoteCheckpoint"@)) } else {
        match infer_spec(env, args[0], amb) {
            Err(d) => Err(d),
            Ok(target) => {
                match cap_error(target, Capability::CanAcceptMigration, line, "restore_remote target requires can_accept_migration"@) {
                    Some(d) => Err(d),
                    None => {
                        match node_arch_of(target.ty) {
                            None => Err(error_with_help(DiagnosticKind::MigrationBridgeError, line, "restore_remote target must be Node<x86_64> or Node<aarch64>"@, "target passport: "@ + passport_text(target))),
                            Some(target_arch) => {
                                match infer_spec(env, args[1], amb) {
                                    Err(d) => Err(d),
                                    Ok(checkpoint) => {
                                        match cap_error(checkpoint, Capability::CanRestoreRemoteCheckpoint, line, "restore_remote requires can_restore_remote_checkpoint"@) {
                                            Some(d) => Err(d),
                                            None => {
                                                if !(checkpoint.ty is RemoteCheckpoint) { Err(error_with_help(DiagnosticKind::DistributedResourceError, line, "restore_remote expects a RemoteCheckpoint<T@arch> value"@, "checkpoint passport: "@ + passport_text(checkpoint))) } else {
                                                    Ok(restored_remote_model(amb, checkpoint, target, target_arch))
                                                }
                                            },
                                        }
                                    },
                                }
                            },
                        }
                    },
                }
            },
        }
    }
}

/// `live_migrate`, `live_migrate_remote`.
pub open spec fn b_live_migrate_spec(env: CheckEnv, name: Seq<char>, args: Seq<ExprV>, amb: Seq<char>, line: usize) -> Result<PassportV, DiagnosticV>
    decreases 2 * args_size(args) + 1, args.len() + 1,
{
    proof {
        lemma_args_size(args);
    }
    if args.len() != 2 { Err(error_model(DiagnosticKind::ParseError, Some(line), name + " expects target node and Remote value"@)) } else {
        match infer_spec(env, args[0], amb) {
            Err(d) => Err(d),
            Ok(target) => {
                match cap_error(target, Capability::CanAcceptMigration, line, "live_migrate target requires can_accept_migration"@) {
                    Some(d) => Err(d),
                    None => {
                        match node_arch_of(target.ty) {
                            None => Err(error_with_help(DiagnosticKind::MigrationBridgeError, line, "live_migrate target must be Node<x86_64> or Node<aarch64>"@, "target passport: "@ + passport_text(target))),
                            Some(target_arch) => {
                                match infer_spec(env, args[1], amb) {
                                    Err(d) => Err(d),
                                    Ok(remote) => {
                                        match cap_error(remote, Capability::CanLiveMigrateRemote, line, "live_migrate requires can_live_migrate_remote"@) {
                                            Some(d) => Err(d),
                                            None => {
                                                if !(remote.ty is Remote) { Err(error_with_help(DiagnosticKind::DistributedResourceError, line, "live_migrate expects a Remote<T@arch> value"@, "remote passport: "@ + passport_text(remote))) } else {
                                                    Ok(live_migrated_remote_model(amb, remote, target, target_arch))
                                                }
                                            },
                                        }
                                    },
                                }
                            },
                        }
                    },
                }
            },
        }
    }
}

/// `schedule`, `schedule_on`.
pub open spec fn b_schedule_spec(env: CheckEnv, name: Seq<char>, args: Seq<ExprV>, amb: Seq<char>, line: usize) -> Result<PassportV, DiagnosticV>
    decreases 2 * args_size(args) + 1, args.len() + 1,
{
    proof {
        lemma_args_size(args);
    }
    if args.len() != 3 { Err(error_model(DiagnosticKind::ParseError, Some(line), name + " expects pool, target node and source value"@)) } else {
        match infer_spec(env, args[0], amb) {
            Err(d) => Err(d),
            Ok(pool) => {
                match cap_error(pool, Capability::CanScheduleRuntime, line, "schedule_on requires a VirtualCluster with can_schedule_runtime"@) {
                    Some(d) => Err(d),
                    None => {
                        if !(pool.ty is VirtualCluster) { Err(error_with_help(DiagnosticKind::DistributedResourceError, line, "schedule_on expects a VirtualCluster as its first argument"@, "pool passport: "@ + passport_text(pool))) } else {
                            match infer_spec(env, args[1], amb) {
                                Err(d) => Err(d),
                                Ok(target) => {
                                    match cap_error(target, Capability::CanAcceptMigration, line, "schedule_on target requires can_accept_migration"@) {
                                        Some(d) => Err(d),
                                        None => {
                                            match node_arch_of(target.ty) {
                                                None => Err(error_with_help(DiagnosticKind::MigrationBridgeError, line, "schedule_on target must be Node<x86_64> or Node<aarch64>"@, "target passport: "@ + passport_text(target))),
                                                Some(target_arch) => {
                                                    match args[2].kind {
                                                        ExprKindV::QualifiedIdent { theory: q_theory, name: q_name } => match lookup_qualified_spec(env, q_theory, q_name, q_theory, line) {
                                                            Err(d) => Err(d),
                                                            Ok(p) => {
                                                                let source_theory = q_theory;
                                                                let source_passport = p;
                                                                if source_theory == amb {
                                                                    match cap_error(source_passport, Capability::CanSerializeForMigration, line, "schedule_on source requires can_serialize_for_migration"@) {
                                                                        Some(d) => Err(d),
                                                                        None => {
                                                                            Ok(scheduled_to_model(source_passport, amb, target_arch, "local_schedule"@, pool, target))
                                                                        },
                                                                    }
                                                                } else {
                                                                    match first_bridge(env.bridges, source_theory, amb, BridgeKindV::Migration) {
                                                                        None => Err(error_with_help(DiagnosticKind::MigrationBridgeError, line, "no migration bridge from theory "@ + source_theory + " to "@ + amb + " in scope for schedule_on"@, "declare or import: bridge Name : Source -> Target { kind = migration }"@)),
                                                                        Some(bridge) => {
                                                                            let bname = bridge.name;
                                                                            match cap_error(source_passport, Capability::CanSerializeForMigration, line, "schedule_on source requires can_serialize_for_migration"@) {
                                                                                Some(d) => Err(d),
                                                                                None => {
                                                                                    Ok(scheduled_to_model(source_passport, amb, target_arch, bname, pool, target))
                                                                                },
                                                                            }
                                                                        },
                                                                    }
                                                                }
                                                            },
                                                        },
                                                        _ => match infer_spec(env, args[2], amb) {
                                                            Err(d) => Err(d),
                                                            Ok(p) => {
                                                                let source_theory = amb;
                                                                let source_passport = p;
                                                                if source_theory == amb {
                                                                    match cap_error(source_passport, Capability::CanSerializeForMigration, line, "schedule_on source requires can_serialize_for_migration"@) {
                                                                        Some(d) => Err(d),
                                                                        None => {
                                                                            Ok(scheduled_to_model(source_passport, amb, target_arch, "local_schedule"@, pool, target))
                                                                        },
                                                                    }
                                                                } else {
                                                                    match first_bridge(env.bridges, source_theory, amb, BridgeKindV::Migration) {
                                                                        None => Err(error_with_help(DiagnosticKind::MigrationBridgeError, line, "no migration bridge from theory "@ + source_theory + " to "@ + amb + " in scope for schedule_on"@, "declare or import: bridge Name : Source -> Target { kind = migration }"@)),
                                                                        Some(bridge) => {
                                                                            let bname = bridge.name;
                                                                            match cap_error(source_passport, Capability::CanSerializeForMigration, line, "schedule_on source requires can_serialize_for_migration"@) {
                                                                                Some(d) => Err(d),
                                                                                None => {
                                                                                    Ok(scheduled_to_model(source_passport, amb, target_arch, bname, pool, target))
                                                                                },
                                                                            }
                                                                        },
                                                                    }
                                                                }
                                                            },
                                                        },
                                                    }
                                                },
                                            }
                                        },
                                    }
                                },
                            }
                        }
                    },
                }
            },
        }
    }
}

/// `migrate`.
pub open spec fn b_migrate_spec(env: CheckEnv, name: Seq<char>, args: Seq<ExprV>, amb: Seq<char>, line: usize) -> Result<PassportV, DiagnosticV>
    decreases 2 * args_size(args) + 1, args.len() + 1,
{
    proof {
        lemma_args_size(args);
    }
    if args.len() != 2 { Err(error_model(DiagnosticKind::ParseError, Some(line), "migrate expects target node and source value"@)) } else {
        match infer_spec(env, args[0], amb) {
            Err(d) => Err(d),
            Ok(target) => {
                match cap_error(target, Capability::CanAcceptMigration, line, "migrate target requires can_accept_migration"@) {
                    Some(d) => Err(d),
                    None => {
                        match node_arch_of(target.ty) {
                            None => Err(error_with_help(DiagnosticKind::MigrationBridgeError, line, "migrate target must be Node<x86_64> or Node<aarch64>"@, "target passport: "@ + passport_text(target))),
                            Some(target_arch) => {
                                match args[1].kind {
                                    ExprKindV::QualifiedIdent { theory: q_theory, name: q_name } => match lookup_qualified_spec(env, q_theory, q_name, q_theory, line) {
                                        Err(d) => Err(d),
                                        Ok(p) => {
                                            let source_theory = q_theory;
                                            let source_passport = p;
                                            match first_bridge(env.bridges, source_theory, amb, BridgeKindV::Migration) {
                                                None => Err(error_with_help(DiagnosticKind::MigrationBridgeError, line, "no migration bridge from theory "@ + source_theory + " to "@ + amb + " in scope"@, "declare or import: bridge Name : Source -> Target { kind = migration }"@)),
                                                Some(bridge) => {
                                                    let bname = bridge.name;
                                                    match cap_error(source_passport, Capability::CanSerializeForMigration, line, "migrate source requires can_serialize_for_migration"@) {
                                                        Some(d) => Err(d),
                                                        None => {
                                                            Ok(migrated_to_model(source_passport, amb, target_arch, bname))
                                                        },
                                                    }
                                                },
                                            }
                                        },
                                    },
                                    _ => match infer_spec(env, args[1], amb) {
                                        Err(d) => Err(d),
                                        Ok(p) => {
                                            let source_theory = amb;
                                            let source_passport = p;
                                            match first_bridge(env.bridges, source_theory, amb, BridgeKindV::Migration) {
                                                None => Err(error_with_help(DiagnosticKind::MigrationBridgeError, line, "no migration bridge from theory "@ + source_theory + " to "@ + amb + " in scope"@, "declare or import: bridge Name : Source -> Target { kind = migration }"@)),
                                                Some(bridge) => {
                                                    let bname = bridge.name;
                                                    match cap_error(source_passport, Capability::CanSerializeForMigration, line, "migrate source requires can_serialize_for_migration"@) {
                                                        Some(d) => Err(d),
                                                        None => {
                                                            Ok(migrated_to_model(source_passport, amb, target_arch, bname))
                                                        },
                                                    }
                                                },
                                            }
                                        },
                                    },
                                }
                            },
                        }
                    },
                }
            },
        }
    }
}

/// `equals`, `eq`.
pub open spec fn b_equals_spec(env: CheckEnv, name: Seq<char>, args: Seq<ExprV>, amb: Seq<char>, line: usize) -> Result<PassportV, DiagnosticV>
{
    Err(error_with_help(DiagnosticKind::EqualityModeError, line, "ambiguous equality is not allowed"@, "use an explicit equality mode: eq_value(...), eq_syntax(...), or eq_proof(...)"@))
}

/// `eq_value`.
pub open spec fn b_eq_value_spec(env: CheckEnv, name: Seq<char>, args: Seq<ExprV>, amb: Seq<char>, line: usize) -> Result<PassportV, DiagnosticV>
    decreases 2 * args_size(args) + 1, args.len() + 1,
{
    proof {
        lemma_args_size(args);
    }
    if args.len() != 2 { Err(error_model(DiagnosticKind::ParseError, Some(line), "eq_value expects two arguments"@)) } else {
        match infer_spec(env, args[0], amb) {
            Err(d) => Err(d),
            Ok(lhs) => {
                match infer_spec(env, args[1], amb) {
                    Err(d) => Err(d),
                    Ok(rhs) => {
                        if lhs.ty != rhs.ty { Err(error_with_help(DiagnosticKind::EqualityModeError, line, "eq_value requires both operands to have the same value type"@, "left: "@ + passport_text(lhs) + "\n  right: "@ + passport_text(rhs))) } else {
                            match cap_error(lhs, Capability::CanCompareDirect, line, "eq_value requires can_compare_direct on the left operand"@) {
                                Some(d) => Err(d),
                                None => {
                                    match cap_error(rhs, Capability::CanCompareDirect, line, "eq_value requires can_compare_direct on the right operand"@) {
                                        Some(d) => Err(d),
                                        None => {
                                            Ok(compare_model(lhs, rhs, amb, "equality:value"@))
                                        },
                                    }
                                },
                            }
                        }
                    },
                }
            },
        }
    }
}

/// `eq_proof`.
pub open spec fn b_eq_proof_spec(env: CheckEnv, name: Seq<char>, args: Seq<ExprV>, amb: Seq<char>, line: usize) -> Result<PassportV, DiagnosticV>
    decreases 2 * args_size(args) + 1, args.len() + 1,
{
    proof {
        lemma_args_size(args);
    }
    if args.len() != 2 { Err(error_model(DiagnosticKind::ParseError, Some(line), "eq_proof expects two arguments"@)) } else {
        match infer_spec(env, args[0], amb) {
            Err(d) => Err(d),
            Ok(lhs) => {
                match infer_spec(env, args[1], amb) {
                    Err(d) => Err(d),
                    Ok(rhs) => {
                        if lhs.ty != rhs.ty { Err(error_with_help(DiagnosticKind::EqualityModeError, line, "eq_proof requires both operands to have the same proof-comparable type"@, "left: "@ + passport_text(lhs) + "\n  right: "@ + passport_text(rhs))) } else {
                            match cap_error(lhs, Capability::CanCompareByProof, line, "eq_proof requires can_compare_by_proof on the left operand"@) {
                                Some(d) => Err(d),
                                None => {
                                    match cap_error(rhs, Capability::CanCompareByProof, line, "eq_proof requires can_compare_by_proof on the right operand"@) {
                                        Some(d) => Err(d),
                                        None => {
                                            Ok(proof_compare_model(lhs, rhs, amb, "equality:proof"@, CostClass::ProofRequired))
                                        },
                                    }
                                },
                            }
                        }
                    },
                }
            },
        }
    }
}

/// `eq_syntax`.
pub open spec fn b_eq_syntax_spec(env: CheckEnv, name: Seq<char>, args: Seq<ExprV>, amb: Seq<char>, line: usize) -> Result<PassportV, DiagnosticV>
    decreases 2 * args_size(args) + 1, args.len() + 1,
{
    proof {
        lemma_args_size(args);
    }
    if args.len() != 2 { Err(error_model(DiagnosticKind::ParseError, Some(line), "eq_syntax expects two Term arguments"@)) } else {
        match infer_spec(env, args[0], amb) {
            Err(d) => Err(d),
            Ok(lhs) => {
                match infer_spec(env, args[1], amb) {
                    Err(d) => Err(d),
                    Ok(rhs) => {
                        if !(lhs.ty is Term) || !(rhs.ty is Term) { Err(error_with_help(DiagnosticKind::EqualityModeError, line, "eq_syntax requires Term operands"@, "left: "@ + passport_text(lhs) + "\n  right: "@ + passport_text(rhs))) } else {
                            match cap_error(lhs, Capability::CanCompareSyntax, line, "eq_syntax requires can_compare_syntax on the left operand"@) {
                                Some(d) => Err(d),
                                None => {
                                    match cap_error(rhs, Capability::CanCompareSyntax, line, "eq_syntax requires can_compare_syntax on the right operand"@) {
                                        Some(d) => Err(d),
                                        None => {
                                            Ok(proof_compare_model(lhs, rhs, amb, "equality:syntax"@, CostClass::SmallFinite))
                                        },
                                    }
                                },
                            }
                        }
                    },
                }
            },
        }
    }
}

/// `print_symbolic`.
pub open spec fn b_print_symbolic_spec(env: CheckEnv, name: Seq<char>, args: Seq<ExprV>, amb: Seq<char>, line: usize) -> Result<PassportV, DiagnosticV>
    decreases 2 * args_size(args) + 1, args.len() + 1,
{
    proof {
        lemma_args_size(args);
    }
    if args.len() != 1 { Err(error_model(DiagnosticKind::ParseError, Some(line), "print_symbolic expects one argument"@)) } else {
        match infer_spec(env, args[0], amb) {
            Err(d) => Err(d),
            Ok(value) => {
                match cap_error(value, Capability::CanSymbolicPrint, line, "print_symbolic requires can_symbolic_print"@) {
                    Some(d) => Err(d),
                    None => {
                        Ok(text_model(value, amb, value.construction, value.cost, "output:print_symbolic"@))
                    },
                }
            },
        }
    }
}

/// `print_decimal`.
pub open spec fn b_print_decimal_spec(env: CheckEnv, name: Seq<char>, args: Seq<ExprV>, amb: Seq<char>, line: usize) -> Result<PassportV, DiagnosticV>
    decreases 2 * args_size(args) + 1, args.len() + 1,
{
    proof {
        lemma_args_size(args);
    }
    if args.len() != 1 { Err(error_model(DiagnosticKind::ParseError, Some(line), "print_decimal expects one argument"@)) } else {
        match infer_spec(env, args[0], amb) {
            Err(d) => Err(d),
            Ok(value) => {
                match cap_error(value, Capability::CanPrintDecimal, line, "print_decimal requires can_print_decimal"@) {
                    Some(d) => Err(d),
                    None => {
                        Ok(text_model(value, amb, ConstructionMode::Literal, CostClass::SmallFinite, "output:print_decimal"@))
                    },
                }
            },
        }
    }
}

/// `print_text`.
pub open spec fn b_print_text_spec(env: CheckEnv, name: Seq<char>, args: Seq<ExprV>, amb: Seq<char>, line: usize) -> Result<PassportV, DiagnosticV>
    decreases 2 * args_size(args) + 1, args.len() + 1,
{
    proof {
        lemma_args_size(args);
    }
    if args.len() != 1 { Err(error_model(DiagnosticKind::ParseError, Some(line), "print_text expects one argument"@)) } else {
        match infer_spec(env, args[0], amb) {
            Err(d) => Err(d),
            Ok(value) => {
                if !(value.ty is Text) { Err(error_with_help(DiagnosticKind::AccessError, line, "print_text expects a Text value"@, "value passport: "@ + passport_text(value))) } else {
                    match cap_error(value, Capability::CanSymbolicPrint, line, "print_text requires can_symbolic_print"@) {
                        Some(d) => Err(d),
                        None => {
                            Ok(text_model(value, amb, value.construction, value.cost, "output:print_text"@))
                        },
                    }
                }
            },
        }
    }
}

/// `inspect_ast`.
pub open spec fn b_inspect_ast_spec(env: CheckEnv, name: Seq<char>, args: Seq<ExprV>, amb: Seq<char>, line: usize) -> Result<PassportV, DiagnosticV>
    decreases 2 * args_size(args) + 1, args.len() + 1,
{
    proof {
        lemma_args_size(args);
    }
    if args.len() != 1 { Err(error_model(DiagnosticKind::ParseError, Some(line), "inspect_ast expects one Term argument"@)) } else {
        match infer_spec(env, args[0], amb) {
            Err(d) => Err(d),
            Ok(value) => {
                match cap_error(value, Capability::CanInspectAst, line, "inspect_ast requires can_inspect_ast"@) {
                    Some(d) => Err(d),
                    None => {
                        if !(value.ty is Term) { Err(error_with_help(DiagnosticKind::AccessError, line, "inspect_ast expects a Term value"@, "value passport: "@ + passport_text(value))) } else {
                            Ok(text_model(value, amb, ConstructionMode::Literal, CostClass::SmallFinite, "inspect:ast"@))
                        }
                    },
                }
            },
        }
    }
}

/// `read`, `read_stdin`.
pub open spec fn b_read_spec(env: CheckEnv, name: Seq<char>, args: Seq<ExprV>, amb: Seq<char>, line: usize) -> Result<PassportV, DiagnosticV>
{
    Ok(raw_external_bytes_model(amb))
}

/// `parse_nat`.
pub open spec fn b_parse_nat_spec(env: CheckEnv, name: Seq<char>, args: Seq<ExprV>, amb: Seq<char>, line: usize) -> Result<PassportV, DiagnosticV>
    decreases 2 * args_size(args) + 1, args.len() + 1,
{
    proof {
        lemma_args_size(args);
    }
    if args.len() != 1 { Err(error_model(DiagnosticKind::ParseError, Some(line), "parse_nat expects one argument"@)) } else {
        match infer_spec(env, args[0], amb) {
            Err(d) => Err(d),
            Ok(raw) => {
                match cap_error(raw, Capability::CanParse, line, "parse_nat requires raw parse capability"@) {
                    Some(d) => Err(d),
                    None => {
                        Ok(parsed_nat_model(raw, amb))
                    },
                }
            },
        }
    }
}

/// The natural number parsed from raw input `raw`: a runtime input that keeps
/// the raw value's trust.
pub open spec fn parsed_nat_model(raw: PassportV, amb: Seq<char>) -> PassportV {
    PassportV { trust: raw.trust, ..runtime_nat_from_input_model(amb) }
}

/// `axiom_true`, `assume_true`.
pub open spec fn b_axiom_true_spec(env: CheckEnv, name: Seq<char>, args: Seq<ExprV>, amb: Seq<char>, line: usize) -> Result<PassportV, DiagnosticV>
{
    if args.len() != 0 { Err(error_model(DiagnosticKind::ParseError, Some(line), name + " expects no arguments"@)) } else {
        Ok(axiom_bool_model(amb))
    }
}

/// `axiom_nat`, `assume_nat`.
pub open spec fn b_axiom_nat_spec(env: CheckEnv, name: Seq<char>, args: Seq<ExprV>, amb: Seq<char>, line: usize) -> Result<PassportV, DiagnosticV>
{
    if args.len() != 0 { Err(error_model(DiagnosticKind::ParseError, Some(line), name + " expects no arguments"@)) } else {
        Ok(axiom_nat_model(amb))
    }
}

/// `unsafe_nat`, `unsafe_assume_nat`.
pub open spec fn b_unsafe_nat_spec(env: CheckEnv, name: Seq<char>, args: Seq<ExprV>, amb: Seq<char>, line: usize) -> Result<PassportV, DiagnosticV>
{
    if args.len() != 0 { Err(error_model(DiagnosticKind::ParseError, Some(line), name + " expects no arguments"@)) } else {
        Ok(unsafe_nat_model(amb))
    }
}

/// `read_nat`.
pub open spec fn b_read_nat_spec(env: CheckEnv, name: Seq<char>, args: Seq<ExprV>, amb: Seq<char>, line: usize) -> Result<PassportV, DiagnosticV>
{
    if args.len() != 0 { Err(error_model(DiagnosticKind::ParseError, Some(line), "read_nat expects no arguments"@)) } else {
        Ok(runtime_nat_from_input_model(amb))
    }
}

/// `require`.
pub open spec fn b_require_spec(env: CheckEnv, name: Seq<char>, args: Seq<ExprV>, amb: Seq<char>, line: usize) -> Result<PassportV, DiagnosticV>
    decreases 2 * args_size(args) + 1, args.len() + 1,
{
    proof {
        lemma_args_size(args);
    }
    if args.len() != 1 { Err(error_model(DiagnosticKind::ParseError, Some(line), "require expects one boolean condition"@)) } else {
        match infer_spec(env, args[0], amb) {
            Err(d) => Err(d),
            Ok(condition) => {
                if !(condition.ty is Bool) { Err(error_with_help(DiagnosticKind::AccessError, line, "require expects a Bool condition"@, "condition passport: "@ + passport_text(condition))) } else {
                    {
                        let predicate = "line_"@ + dec_text(line as nat) + "_condition"@;
                        Ok(runtime_witness_model(amb, predicate, condition))
                    }
                }
            },
        }
    }
}

/// `prove`.
pub open spec fn b_prove_spec(env: CheckEnv, name: Seq<char>, args: Seq<ExprV>, amb: Seq<char>, line: usize) -> Result<PassportV, DiagnosticV>
    decreases 2 * args_size(args) + 1, args.len() + 1,
{
    proof {
        lemma_args_size(args);
    }
    if args.len() != 1 { Err(error_model(DiagnosticKind::ParseError, Some(line), "prove expects one static boolean condition"@)) } else {
        match infer_spec(env, args[0], amb) {
            Err(d) => Err(d),
            Ok(condition) => {
                if !(condition.ty is Bool) { Err(error_with_help(DiagnosticKind::AccessError, line, "prove expects a Bool condition"@, "condition passport: "@ + passport_text(condition))) } else {
                    if is_runtime_dependent(condition) { Err(error_with_help(DiagnosticKind::RuntimeStaticMismatch, line, "cannot create StaticProof from runtime-dependent input"@, "condition passport: "@ + passport_text(condition) + "\n  use require(...) to create a RuntimeWitness instead"@)) } else {
                        {
                            let predicate = "line_"@ + dec_text(line as nat) + "_condition"@;
                            Ok(static_proof_model(amb, predicate, condition))
                        }
                    }
                }
            },
        }
    }
}

/// `prop_true`, `true_prop`, `proposition_true`.
pub open spec fn b_prop_true_spec(env: CheckEnv, name: Seq<char>, args: Seq<ExprV>, amb: Seq<char>, line: usize) -> Result<PassportV, DiagnosticV>
{
    if args.len() != 0 { Err(error_model(DiagnosticKind::ParseError, Some(line), name + " expects no arguments"@)) } else {
        Ok(proposition_model(amb, "true"@, None, "prop:true"@))
    }
}

/// `prop_gt`, `gt_prop`.
pub open spec fn b_prop_gt_spec(env: CheckEnv, name: Seq<char>, args: Seq<ExprV>, amb: Seq<char>, line: usize) -> Result<PassportV, DiagnosticV>
    decreases 2 * args_size(args) + 1, args.len() + 1,
{
    proof {
        lemma_args_size(args);
    }
    if args.len() != 2 { Err(error_model(DiagnosticKind::ParseError, Some(line), name + " expects two Nat-like arguments"@)) } else {
        match infer_spec(env, args[0], amb) {
            Err(d) => Err(d),
            Ok(lhs) => {
                match infer_spec(env, args[1], amb) {
                    Err(d) => Err(d),
                    Ok(rhs) => {
                        match cap_error(lhs, Capability::CanCompareDirect, line, "prop_gt requires can_compare_direct on the left operand"@) {
                            Some(d) => Err(d),
                            None => {
                                match cap_error(rhs, Capability::CanCompareDirect, line, "prop_gt requires can_compare_direct on the right operand"@) {
                                    Some(d) => Err(d),
                                    None => {
                                        if is_runtime_dependent(lhs) || is_runtime_dependent(rhs) { Err(error_with_help(DiagnosticKind::RuntimeStaticMismatch, line, "prop_gt cannot create a static proposition from runtime-dependent input"@, "left: "@ + passport_text(lhs) + "\n  right: "@ + passport_text(rhs) + "\n  use require(...) for runtime witnesses instead"@)) } else {
                                            {
                                                let condition = compare_model(lhs, rhs, amb, "compare:gt"@);
                                                Ok(proposition_model(amb, "gt"@, Some(condition), "prop:gt"@))
                                            }
                                        }
                                    },
                                }
                            },
                        }
                    },
                }
            },
        }
    }
}

/// `provable_of`, `provability_of`, `provable`.
pub open spec fn b_provable_of_spec(env: CheckEnv, name: Seq<char>, args: Seq<ExprV>, amb: Seq<char>, line: usize) -> Result<PassportV, DiagnosticV>
    decreases 2 * args_size(args) + 1, args.len() + 1,
{
    proof {
        lemma_args_size(args);
    }
    if args.len() != 1 { Err(error_model(DiagnosticKind::ParseError, Some(line), name + " expects one StaticProof argument"@)) } else {
        match infer_spec(env, args[0], amb) {
            Err(d) => Err(d),
            Ok(proof) => {
                match proof.ty {
                    TypeKindV::StaticProof(predicate) => {
                        Ok(provable_claim_model(amb, proof.theory.home, predicate, proof))
                    },
                    _ => Err(error_with_help(DiagnosticKind::TruthBoundaryError, line, "provable_of requires StaticProof; arbitrary values are not provability claims"@, "value passport: "@ + passport_text(proof))),
                }
            },
        }
    }
}

/// `truth_from_provable`, `assert_truth`, `truth`.
pub open spec fn b_truth_from_provable_spec(env: CheckEnv, name: Seq<char>, args: Seq<ExprV>, amb: Seq<char>, line: usize) -> Result<PassportV, DiagnosticV>
    decreases 2 * args_size(args) + 1, args.len() + 1,
{
    proof {
        lemma_args_size(args);
    }
    if args.len() != 1 { Err(error_model(DiagnosticKind::ParseError, Some(line), name + " expects one Provable claim"@)) } else {
        match infer_spec(env, args[0], amb) {
            Err(d) => Err(d),
            Ok(claim) => {
                if !(claim.ty is Provable) { Err(error_with_help(DiagnosticKind::TruthBoundaryError, line, "truth_from_provable requires Provable<T>; use provable_of(StaticProof) first"@, "value passport: "@ + passport_text(claim))) } else {
                    Err(error_with_help(DiagnosticKind::TheoryBridgeError, line, "Provable(phi) cannot be used as Truth(phi) without an explicit soundness bridge or axiom-tainted truth lift"@, "Use soundness(...) for an explicit theory bridge, or truth_from_provable_axiom(...) to mark the result Axiom-tainted."@))
                }
            },
        }
    }
}

/// `truth_from_provable_axiom`, `assume_truth_from_provable`.
pub open spec fn b_truth_from_provable_axiom_spec(env: CheckEnv, name: Seq<char>, args: Seq<ExprV>, amb: Seq<char>, line: usize) -> Result<PassportV, DiagnosticV>
    decreases 2 * args_size(args) + 1, args.len() + 1,
{
    proof {
        lemma_args_size(args);
    }
    if args.len() != 1 { Err(error_model(DiagnosticKind::ParseError, Some(line), name + " expects one Provable claim"@)) } else {
        match infer_spec(env, args[0], amb) {
            Err(d) => Err(d),
            Ok(claim) => {
                match claim.ty {
                    TypeKindV::Provable { proposition: predicate, .. } => {
                        Ok(axiom_truth_from_provable_model(amb, predicate, claim))
                    },
                    _ => Err(error_with_help(DiagnosticKind::TruthBoundaryError, line, "truth_from_provable_axiom requires Provable<T>"@, "value passport: "@ + passport_text(claim))),
                }
            },
        }
    }
}

/// `consistency_claim`, `consistency_of_current`, `consistent_current`.
pub open spec fn b_consistency_claim_spec(env: CheckEnv, name: Seq<char>, args: Seq<ExprV>, amb: Seq<char>, line: usize) -> Result<PassportV, DiagnosticV>
{
    if args.len() != 0 { Err(error_model(DiagnosticKind::ParseError, Some(line), name + " expects no arguments in MVP"@)) } else {
        Ok(consistency_claim_model(amb, amb, None))
    }
}

/// `prove_consistency`, `prove_own_consistency`.
pub open spec fn b_prove_consistency_spec(env: CheckEnv, name: Seq<char>, args: Seq<ExprV>, amb: Seq<char>, line: usize) -> Result<PassportV, DiagnosticV>
    decreases 2 * args_size(args) + 1, args.len() + 1,
{
    proof {
        lemma_args_size(args);
    }
    if args.len() != 1 { Err(error_model(DiagnosticKind::ParseError, Some(line), name + " expects one Consistency<T> claim"@)) } else {
        match infer_spec(env, args[0], amb) {
            Err(d) => Err(d),
            Ok(claim) => {
                match claim.ty {
                    TypeKindV::ConsistencyClaim { theory: target } => {
                        Err(error_with_help(DiagnosticKind::IncompletenessBoundaryError, line, "cannot prove Consistency<"@ + target + "> inside the current MVP theory context"@, "Use assume_consistency(...) to mark the result Axiom-tainted, or move the claim through an explicit stronger meta-theory/soundness framework in a future proof-kernel layer."@))
                    },
                    _ => Err(error_with_help(DiagnosticKind::IncompletenessBoundaryError, line, "prove_consistency requires Consistency<T>"@, "value passport: "@ + passport_text(claim))),
                }
            },
        }
    }
}

/// `consistency_axiom`, `assume_consistency`, `consistency_from_axiom`.
pub open spec fn b_consistency_axiom_spec(env: CheckEnv, name: Seq<char>, args: Seq<ExprV>, amb: Seq<char>, line: usize) -> Result<PassportV, DiagnosticV>
    decreases 2 * args_size(args) + 1, args.len() + 1,
{
    proof {
        lemma_args_size(args);
    }
    if args.len() != 1 { Err(error_model(DiagnosticKind::ParseError, Some(line), name + " expects one Consistency<T> claim"@)) } else {
        match infer_spec(env, args[0], amb) {
            Err(d) => Err(d),
            Ok(claim) => {
                match claim.ty {
                    TypeKindV::ConsistencyClaim { theory: target } => {
                        Ok(axiom_consistency_proof_model(amb, target, claim))
                    },
                    _ => Err(error_with_help(DiagnosticKind::IncompletenessBoundaryError, line, "assume_consistency requires Consistency<T>"@, "value passport: "@ + passport_text(claim))),
                }
            },
        }
    }
}

/// `reflection_claim`, `reflection_of`.
pub open spec fn b_reflection_claim_spec(env: CheckEnv, name: Seq<char>, args: Seq<ExprV>, amb: Seq<char>, line: usize) -> Result<PassportV, DiagnosticV>
    decreases 2 * args_size(args) + 1, args.len() + 1,
{
    proof {
        lemma_args_size(args);
    }
    if args.len() != 1 { Err(error_model(DiagnosticKind::ParseError, Some(line), name + " expects one Provable<T> claim"@)) } else {
        match infer_spec(env, args[0], amb) {
            Err(d) => Err(d),
            Ok(claim) => {
                match claim.ty {
                    TypeKindV::Provable { object_theory: object_theory, proposition: proposition } => {
                        match first_bridge(env.bridges, object_theory, amb, BridgeKindV::Reflection) {
                            None => Err(error_with_help(DiagnosticKind::ReflectionBoundaryError, line, "no reflection bridge from theory "@ + object_theory + " to "@ + amb + " in scope"@, "declare or import an explicit reflection bridge: bridge Name : Source -> Target { kind = reflection }"@)),
                            Some(bridge) => {
                                let bname = bridge.name;
                                Ok(reflection_claim_model(amb, object_theory, proposition, claim))
                            },
                        }
                    },
                    _ => Err(error_with_help(DiagnosticKind::ReflectionBoundaryError, line, "reflection_claim requires Provable<T>; reflection is a meta-level claim about provability"@, "value passport: "@ + passport_text(claim))),
                }
            },
        }
    }
}

/// `reflection_axiom`, `assume_reflection`.
pub open spec fn b_reflection_axiom_spec(env: CheckEnv, name: Seq<char>, args: Seq<ExprV>, amb: Seq<char>, line: usize) -> Result<PassportV, DiagnosticV>
    decreases 2 * args_size(args) + 1, args.len() + 1,
{
    proof {
        lemma_args_size(args);
    }
    if args.len() != 1 { Err(error_model(DiagnosticKind::ParseError, Some(line), name + " expects one Reflection<T> claim"@)) } else {
        match infer_spec(env, args[0], amb) {
            Err(d) => Err(d),
            Ok(claim) => {
                match claim.ty {
                    TypeKindV::ReflectionClaim { object_theory: object_theory, proposition: proposition } => {
                        Ok(axiom_reflection_proof_model(amb, object_theory, proposition, claim))
                    },
                    _ => Err(error_with_help(DiagnosticKind::ReflectionBoundaryError, line, "reflection_axiom requires Reflection<T>; use reflection_claim(provable_of(...)) first"@, "value passport: "@ + passport_text(claim))),
                }
            },
        }
    }
}

/// `self_reference`, `self_reference_claim`.
pub open spec fn b_self_reference_spec(env: CheckEnv, name: Seq<char>, args: Seq<ExprV>, amb: Seq<char>, line: usize) -> Result<PassportV, DiagnosticV>
    decreases 2 * args_size(args) + 1, args.len() + 1,
{
    proof {
        lemma_args_size(args);
    }
    if args.len() != 1 { Err(error_model(DiagnosticKind::ParseError, Some(line), name + " expects one Prop value"@)) } else {
        match infer_spec(env, args[0], amb) {
            Err(d) => Err(d),
            Ok(prop) => {
                match prop.ty {
                    TypeKindV::Prop { name: proposition } => {
                        {
                            let ev = "self_reference:claim:"@ + proposition;
                            Ok(self_reference_claim_model(amb, proposition, Some(prop), ev))
                        }
                    },
                    _ => Err(error_with_help(DiagnosticKind::ReflectionBoundaryError, line, "self_reference requires Prop<T>; self-reference is a claim object, not a proof or truth value"@, "value passport: "@ + passport_text(prop))),
                }
            },
        }
    }
}

/// `godel_sentence`.
pub open spec fn b_godel_sentence_spec(env: CheckEnv, name: Seq<char>, args: Seq<ExprV>, amb: Seq<char>, line: usize) -> Result<PassportV, DiagnosticV>
{
    if args.len() != 0 { Err(error_model(DiagnosticKind::ParseError, Some(line), "godel_sentence expects no arguments"@)) } else {
        Ok(self_reference_claim_model(amb, "godel_sentence"@, None, "self_reference:claim:godel_sentence"@))
    }
}

/// `self_reference_axiom`, `assume_self_reference`.
pub open spec fn b_self_reference_axiom_spec(env: CheckEnv, name: Seq<char>, args: Seq<ExprV>, amb: Seq<char>, line: usize) -> Result<PassportV, DiagnosticV>
    decreases 2 * args_size(args) + 1, args.len() + 1,
{
    proof {
        lemma_args_size(args);
    }
    if args.len() != 1 { Err(error_model(DiagnosticKind::ParseError, Some(line), name + " expects one SelfReference<T> claim"@)) } else {
        match infer_spec(env, args[0], amb) {
            Err(d) => Err(d),
            Ok(claim) => {
                match claim.ty {
                    TypeKindV::SelfReferenceClaim { proposition: proposition } => {
                        Ok(axiom_self_reference_proof_model(amb, proposition, claim))
                    },
                    _ => Err(error_with_help(DiagnosticKind::ReflectionBoundaryError, line, "self_reference_axiom requires SelfReference<T>; use self_reference(...) or godel_sentence() first"@, "value passport: "@ + passport_text(claim))),
                }
            },
        }
    }
}

/// `reflect_provable`, `prove_self_reference`, `truth_of_self_reference`, `truth_of_self`, `says_unprovable_self`, `liar_sentence`, `truth_of_own_truth`.
pub open spec fn b_reflect_provable_spec(env: CheckEnv, name: Seq<char>, args: Seq<ExprV>, amb: Seq<char>, line: usize) -> Result<PassportV, DiagnosticV>
{
    Err(error_with_help(DiagnosticKind::ReflectionBoundaryError, line, name + " crosses the reflection/self-reference boundary implicitly"@, "Reflection and self-reference must remain explicit claim objects. Use reflection_claim(...), self_reference(...), and an axiom-tainted lift only when the assumption must be visible in the passport history."@))
}

/// `proof_true`, `true_intro`.
pub open spec fn b_proof_true_spec(env: CheckEnv, name: Seq<char>, args: Seq<ExprV>, amb: Seq<char>, line: usize) -> Result<PassportV, DiagnosticV>
{
    if args.len() != 0 { Err(error_model(DiagnosticKind::ParseError, Some(line), name + " expects no arguments"@)) } else {
        Ok(proof_term_model(amb, "true_intro"@, None))
    }
}

/// `proof_gt`, `gt_intro`.
pub open spec fn b_proof_gt_spec(env: CheckEnv, name: Seq<char>, args: Seq<ExprV>, amb: Seq<char>, line: usize) -> Result<PassportV, DiagnosticV>
    decreases 2 * args_size(args) + 1, args.len() + 1,
{
    proof {
        lemma_args_size(args);
    }
    if args.len() != 2 { Err(error_model(DiagnosticKind::ParseError, Some(line), name + " expects two Nat-like arguments"@)) } else {
        match infer_spec(env, args[0], amb) {
            Err(d) => Err(d),
            Ok(lhs) => {
                match infer_spec(env, args[1], amb) {
                    Err(d) => Err(d),
                    Ok(rhs) => {
                        match cap_error(lhs, Capability::CanCompareDirect, line, "proof_gt requires can_compare_direct on the left operand"@) {
                            Some(d) => Err(d),
                            None => {
                                match cap_error(rhs, Capability::CanCompareDirect, line, "proof_gt requires can_compare_direct on the right operand"@) {
                                    Some(d) => Err(d),
                                    None => {
                                        if is_runtime_dependent(lhs) || is_runtime_dependent(rhs) { Err(error_with_help(DiagnosticKind::RuntimeStaticMismatch, line, "proof_gt cannot create a kernel proof term from runtime-dependent input"@, "left: "@ + passport_text(lhs) + "\n  right: "@ + passport_text(rhs) + "\n  use require(...) for runtime witnesses instead"@)) } else {
                                            {
                                                let condition = compare_model(lhs, rhs, amb, "compare:gt"@);
                                                Ok(proof_term_model(amb, "gt_intro"@, Some(condition)))
                                            }
                                        }
                                    },
                                }
                            },
                        }
                    },
                }
            },
        }
    }
}

/// `check_proof`, `kernel_check`, `verify_proof`.
pub open spec fn b_check_proof_spec(env: CheckEnv, name: Seq<char>, args: Seq<ExprV>, amb: Seq<char>, line: usize) -> Result<PassportV, DiagnosticV>
    decreases 2 * args_size(args) + 1, args.len() + 1,
{
    proof {
        lemma_args_size(args);
    }
    if args.len() != 1 { Err(error_model(DiagnosticKind::ParseError, Some(line), name + " expects one ProofTerm argument"@)) } else {
        match infer_spec(env, args[0], amb) {
            Err(d) => Err(d),
            Ok(term) => {
                if !(term.ty is ProofTerm) { Err(error_with_help(DiagnosticKind::ProofKernelError, line, "check_proof requires a ProofTerm produced by the proof kernel"@, "value passport: "@ + passport_text(term))) } else {
                    match cap_error(term, Capability::CanProofKernelCheck, line, "check_proof requires can_proof_kernel_check"@) {
                        Some(d) => Err(d),
                        None => {
                            {
                                let predicate = checked_predicate(term.ty, line);
                                Ok(kernel_checked_proof_model(amb, predicate, term))
                            }
                        },
                    }
                }
            },
        }
    }
}

/// `fake_proof`, `unchecked_proof`, `bare_proof`.
pub open spec fn b_fake_proof_spec(env: CheckEnv, name: Seq<char>, args: Seq<ExprV>, amb: Seq<char>, line: usize) -> Result<PassportV, DiagnosticV>
{
    Err(error_with_help(DiagnosticKind::ProofKernelError, line, "bare/fake proof terms are not allowed"@, "use proof_true(), proof_gt(...), or another kernel constructor, then check_proof(...)"@))
}

/// `quote`.
pub open spec fn b_quote_spec(env: CheckEnv, name: Seq<char>, args: Seq<ExprV>, amb: Seq<char>, line: usize) -> Result<PassportV, DiagnosticV>
{
    if args.len() != 1 { Err(error_model(DiagnosticKind::ParseError, Some(line), "quote expects one argument"@)) } else {
        match args[0].kind {
            ExprKindV::QualifiedIdent { theory: src, name: nm } => {
                match lookup_qualified_spec(env, src, nm, src, line) {
                    Err(d) => Err(d),
                    Ok(source_passport) => {
                        match first_bridge(env.bridges, src, amb, BridgeKindV::Quote) {
                            None => Err(error_with_help(DiagnosticKind::TheoryBridgeError, line, "no quote bridge from theory "@ + src + " to "@ + amb + " in scope"@, "declare or import: bridge Name : Source -> Target { kind = quote }"@)),
                            Some(bridge) => {
                                let bname = bridge.name;
                                {
                                    let ty_text = type_text(source_passport.ty);
                                    Ok(term_of_model(amb, src, ty_text, bname, source_passport))
                                }
                            },
                        }
                    },
                }
            },
            _ => Err(error_model(DiagnosticKind::TheoryBridgeError, Some(line), "quote MVP expects a qualified source expression like PA.n"@)),
        }
    }
}

/// `transport`.
pub open spec fn b_transport_spec(env: CheckEnv, name: Seq<char>, args: Seq<ExprV>, amb: Seq<char>, line: usize) -> Result<PassportV, DiagnosticV>
{
    if args.len() != 1 { Err(error_model(DiagnosticKind::ParseError, Some(line), "transport expects one qualified source value"@)) } else {
        match args[0].kind {
            ExprKindV::QualifiedIdent { theory: src, name: nm } => {
                match lookup_qualified_spec(env, src, nm, src, line) {
                    Err(d) => Err(d),
                    Ok(source_passport) => {
                        match first_bridge(env.bridges, src, amb, BridgeKindV::Transport) {
                            None => Err(error_with_help(DiagnosticKind::TheoryBridgeError, line, "no transport bridge from theory "@ + src + " to "@ + amb + " in scope"@, "declare or import: bridge Name : Source -> Target { kind = transport }"@)),
                            Some(bridge) => {
                                let bname = bridge.name;
                                Ok(transported_to_model(source_passport, amb, bname))
                            },
                        }
                    },
                }
            },
            _ => Err(error_model(DiagnosticKind::TheoryBridgeError, Some(line), "transport MVP expects a qualified source expression like PA.n"@)),
        }
    }
}

/// `soundness`.
pub open spec fn b_soundness_spec(env: CheckEnv, name: Seq<char>, args: Seq<ExprV>, amb: Seq<char>, line: usize) -> Result<PassportV, DiagnosticV>
{
    if args.len() != 1 { Err(error_model(DiagnosticKind::ParseError, Some(line), "soundness expects one qualified proof value"@)) } else {
        match args[0].kind {
            ExprKindV::QualifiedIdent { theory: src, name: nm } => {
                match lookup_qualified_spec(env, src, nm, src, line) {
                    Err(d) => Err(d),
                    Ok(source_passport) => {
                        if !(source_passport.ty is StaticProof) { Err(error_with_help(DiagnosticKind::TheoryBridgeError, line, "soundness MVP expects a StaticProof from the source theory"@, "source passport: "@ + passport_text(source_passport))) } else {
                            match first_bridge(env.bridges, src, amb, BridgeKindV::Soundness) {
                                None => Err(error_with_help(DiagnosticKind::TheoryBridgeError, line, "no soundness bridge from theory "@ + src + " to "@ + amb + " in scope"@, "declare a trusted bridge Name : Source -> Target { kind = soundness }"@)),
                                Some(bridge) => {
                                    let bname = bridge.name;
                                    {
                                        let predicate = "soundness_of_"@ + src + "_"@ + nm;
                                        Ok(soundness_proof_model(amb, predicate, source_passport, bname))
                                    }
                                },
                            }
                        }
                    },
                }
            },
            _ => Err(error_model(DiagnosticKind::TheoryBridgeError, Some(line), "soundness MVP expects a qualified source proof like PA.p"@)),
        }
    }
}

/// The builtins of group 0, when `name` is one of them.
pub open spec fn call_group0_spec(env: CheckEnv, name: Seq<char>, args: Seq<ExprV>, amb: Seq<char>, line: usize) -> Option<Result<PassportV, DiagnosticV>>
    decreases 2 * args_size(args) + 1, args.len() + 2,
{
    if name == "universe"@ {
        Some(b_universe_spec(env, name, args, amb, line))
    } else if name == "U0"@ || name == "universe0"@ {
        Some(b_u0_spec(env, name, args, amb, line))
    } else if name == "U1"@ || name == "universe1"@ {
        Some(b_u1_spec(env, name, args, amb, line))
    } else if name == "U2"@ || name == "universe2"@ {
        Some(b_u2_spec(env, name, args, amb, line))
    } else if name == "universe_succ"@ || name == "next_universe"@ {
        Some(b_universe_succ_spec(env, name, args, amb, line))
    } else if name == "set_of"@ || name == "set_from_universe"@ {
        Some(b_set_of_spec(env, name, args, amb, line))
    } else if name == "class_of"@ || name == "class_from_universe"@ {
        Some(b_class_of_spec(env, name, args, amb, line))
    } else if name == "set_lives_in"@ {
        Some(b_set_lives_in_spec(env, name, args, amb, line))
    } else if name == "class_level"@ {
        Some(b_class_level_spec(env, name, args, amb, line))
    } else if name == "set_of_all_sets"@ || name == "russell_set"@ {
        Some(b_set_of_all_sets_spec(env, name, args, amb, line))
    } else if name == "language_L0"@ || name == "L0_language"@ || name == "language_core"@ {
        Some(b_language_l0_spec(env, name, args, amb, line))
    } else if name == "encoding_godel"@ || name == "godel_encoding"@ {
        Some(b_encoding_godel_spec(env, name, args, amb, line))
    } else {
        None
    }
}

/// The builtins of group 1, when `name` is one of them.
pub open spec fn call_group1_spec(env: CheckEnv, name: Seq<char>, args: Seq<ExprV>, amb: Seq<char>, line: usize) -> Option<Result<PassportV, DiagnosticV>>
    decreases 2 * args_size(args) + 1, args.len() + 2,
{
    if name == "meta_level"@ || name == "M"@ {
        Some(b_meta_level_spec(env, name, args, amb, line))
    } else if name == "definable_nat"@ || name == "define_nat"@ {
        Some(b_definable_nat_spec(env, name, args, amb, line))
    } else if name == "definability_bound"@ || name == "definition_bound"@ {
        Some(b_definability_bound_spec(env, name, args, amb, line))
    } else if name == "definability_meta_level"@ || name == "definition_meta_level"@ {
        Some(b_definability_meta_level_spec(env, name, args, amb, line))
    } else if name == "berry_number"@ || name == "smallest_undefinable"@ || name == "undefinable_nat"@ {
        Some(b_berry_number_spec(env, name, args, amb, line))
    } else if name == "big_number"@ || name == "huge_number"@ {
        Some(b_big_number_spec(env, name, args, amb, line))
    } else if name == "Graham"@ || name == "graham"@ {
        Some(b_graham_spec(env, name, args, amb, line))
    } else if name == "TREE"@ || name == "tree"@ || name == "tree_number"@ {
        Some(b_tree_spec(env, name, args, amb, line))
    } else if name == "BB"@ || name == "busy_beaver"@ {
        Some(b_bb_spec(env, name, args, amb, line))
    } else if name == "fast_growing"@ || name == "FGH"@ {
        Some(b_fast_growing_spec(env, name, args, amb, line))
    } else if name == "growth_parameter"@ || name == "big_number_parameter"@ {
        Some(b_growth_parameter_spec(env, name, args, amb, line))
    } else if name == "infinity"@ {
        Some(b_infinity_spec(env, name, args, amb, line))
    } else {
        None
    }
}

/// The builtins of group 2, when `name` is one of them.
pub open spec fn call_group2_spec(env: CheckEnv, name: Seq<char>, args: Seq<ExprV>, amb: Seq<char>, line: usize) -> Option<Result<PassportV, DiagnosticV>>
    decreases 2 * args_size(args) + 1, args.len() + 2,
{
    if name == "aleph0"@ || name == "infinity_cardinal"@ {
        Some(b_aleph0_spec(env, name, args, amb, line))
    } else if name == "omega"@ || name == "infinity_ordinal"@ {
        Some(b_omega_spec(env, name, args, amb, line))
    } else if name == "limit_omega"@ || name == "infinity_limit"@ || name == "limit_infinity"@ {
        Some(b_limit_omega_spec(env, name, args, amb, line))
    } else if name == "potential_infinity"@ || name == "infinity_potential"@ {
        Some(b_potential_infinity_spec(env, name, args, amb, line))
    } else if name == "class_infinity"@ || name == "proper_class_infinity"@ {
        Some(b_class_infinity_spec(env, name, args, amb, line))
    } else if name == "universe_infinity"@ || name == "infinity_universe"@ {
        Some(b_universe_infinity_spec(env, name, args, amb, line))
    } else if name == "cardinal_succ"@ {
        Some(b_cardinal_succ_spec(env, name, args, amb, line))
    } else if name == "ordinal_succ"@ {
        Some(b_ordinal_succ_spec(env, name, args, amb, line))
    } else if name == "cardinal_add"@ || name == "cardinal_sum"@ {
        Some(b_cardinal_add_spec(env, name, args, amb, line))
    } else if name == "ordinal_add"@ || name == "ordinal_sum"@ {
        Some(b_ordinal_add_spec(env, name, args, amb, line))
    } else if name == "potential_step"@ {
        Some(b_potential_step_spec(env, name, args, amb, line))
    } else if name == "node_x86"@ || name == "node_x86_64"@ {
        Some(b_node_x86_spec(env, name, args, amb, line))
    } else {
        None
    }
}

/// The builtins of group 3, when `name` is one of them.
pub open spec fn call_group3_spec(env: CheckEnv, name: Seq<char>, args: Seq<ExprV>, amb: Seq<char>, line: usize) -> Option<Result<PassportV, DiagnosticV>>
    decreases 2 * args_size(args) + 1, args.len() + 2,
{
    if name == "node_arm"@ || name == "node_aarch64"@ {
        Some(b_node_arm_spec(env, name, args, amb, line))
    } else if name == "node_x86_with"@ || name == "node_x86_64_with"@ {
        Some(b_node_x86_with_spec(env, name, args, amb, line))
    } else if name == "node_arm_with"@ || name == "node_aarch64_with"@ {
        Some(b_node_arm_with_spec(env, name, args, amb, line))
    } else if name == "gpu_cuda"@ || name == "gpu_device_cuda"@ {
        Some(b_gpu_cuda_spec(env, name, args, amb, line))
    } else if name == "gpu_rocm"@ || name == "gpu_device_rocm"@ {
        Some(b_gpu_rocm_spec(env, name, args, amb, line))
    } else if name == "gpu_cuda_with"@ || name == "gpu_device_cuda_with"@ {
        Some(b_gpu_cuda_with_spec(env, name, args, amb, line))
    } else if name == "gpu_rocm_with"@ || name == "gpu_device_rocm_with"@ {
        Some(b_gpu_rocm_with_spec(env, name, args, amb, line))
    } else if name == "gpu_pool"@ || name == "virtual_gpu_pool"@ {
        Some(b_gpu_pool_spec(env, name, args, amb, line))
    } else if name == "virtual_pool"@ || name == "virtual_cluster"@ {
        Some(b_virtual_pool_spec(env, name, args, amb, line))
    } else if name == "distributed_gpu_memory"@ || name == "allocate_gpu_memory"@ || name == "gpu_memory_region"@ {
        Some(b_distributed_gpu_memory_spec(env, name, args, amb, line))
    } else if name == "gpu_memory_mib"@ || name == "distributed_gpu_memory_mib"@ {
        Some(b_gpu_memory_mib_spec(env, name, args, amb, line))
    } else if name == "copy_to_gpu"@ || name == "gpu_upload"@ || name == "upload_to_gpu"@ {
        Some(b_copy_to_gpu_spec(env, name, args, amb, line))
    } else {
        None
    }
}

/// The builtins of group 4, when `name` is one of them.
pub open spec fn call_group4_spec(env: CheckEnv, name: Seq<char>, args: Seq<ExprV>, amb: Seq<char>, line: usize) -> Option<Result<PassportV, DiagnosticV>>
    decreases 2 * args_size(args) + 1, args.len() + 2,
{
    if name == "copy_from_gpu"@ || name == "gpu_download"@ || name == "download_from_gpu"@ {
        Some(b_copy_from_gpu_spec(env, name, args, amb, line))
    } else if name == "compile_gpu_kernel"@ || name == "gpu_kernel"@ || name == "make_gpu_kernel"@ {
        Some(b_compile_gpu_kernel_spec(env, name, args, amb, line))
    } else if name == "launch_kernel"@ || name == "launch_gpu_kernel"@ || name == "gpu_launch"@ {
        Some(b_launch_kernel_spec(env, name, args, amb, line))
    } else if name == "pool_cores"@ || name == "cluster_cores"@ {
        Some(b_pool_cores_spec(env, name, args, amb, line))
    } else if name == "pool_memory_mib"@ || name == "cluster_memory_mib"@ {
        Some(b_pool_memory_mib_spec(env, name, args, amb, line))
    } else if name == "distributed_memory"@ || name == "allocate_memory"@ || name == "memory_region"@ {
        Some(b_distributed_memory_spec(env, name, args, amb, line))
    } else if name == "memory_region_mib"@ || name == "distributed_memory_mib"@ {
        Some(b_memory_region_mib_spec(env, name, args, amb, line))
    } else if name == "checkpoint_memory"@ || name == "checkpoint"@ || name == "checkpoint_region"@ {
        Some(b_checkpoint_memory_spec(env, name, args, amb, line))
    } else if name == "restore_checkpoint"@ || name == "restore_memory"@ || name == "restore"@ {
        Some(b_restore_checkpoint_spec(env, name, args, amb, line))
    } else if name == "compile_portable"@ || name == "portable_code"@ || name == "make_portable"@ {
        Some(b_compile_portable_spec(env, name, args, amb, line))
    } else if name == "deploy_portable"@ || name == "deploy_code"@ {
        Some(b_deploy_portable_spec(env, name, args, amb, line))
    } else if name == "deploy_on"@ || name == "deploy_to_pool"@ {
        Some(b_deploy_on_spec(env, name, args, amb, line))
    } else {
        None
    }
}

/// The builtins of group 5, when `name` is one of them.
pub open spec fn call_group5_spec(env: CheckEnv, name: Seq<char>, args: Seq<ExprV>, amb: Seq<char>, line: usize) -> Option<Result<PassportV, DiagnosticV>>
    decreases 2 * args_size(args) + 1, args.len() + 2,
{
    if name == "materialize_remote"@ || name == "materialize"@ || name == "fetch_remote"@ || name == "collect_remote"@ {
        Some(b_materialize_remote_spec(env, name, args, amb, line))
    } else if name == "checkpoint_remote"@ || name == "checkpoint_job"@ || name == "checkpoint_remote_job"@ {
        Some(b_checkpoint_remote_spec(env, name, args, amb, line))
    } else if name == "restore_remote"@ || name == "restore_job"@ || name == "restore_remote_checkpoint"@ {
        Some(b_restore_remote_spec(env, name, args, amb, line))
    } else if name == "live_migrate"@ || name == "live_migrate_remote"@ {
        Some(b_live_migrate_spec(env, name, args, amb, line))
    } else if name == "schedule"@ || name == "schedule_on"@ {
        Some(b_schedule_spec(env, name, args, amb, line))
    } else if name == "migrate"@ {
        Some(b_migrate_spec(env, name, args, amb, line))
    } else if name == "equals"@ || name == "eq"@ {
        Some(b_equals_spec(env, name, args, amb, line))
    } else if name == "eq_value"@ {
        Some(b_eq_value_spec(env, name, args, amb, line))
    } else if name == "eq_proof"@ {
        Some(b_eq_proof_spec(env, name, args, amb, line))
    } else if name == "eq_syntax"@ {
        Some(b_eq_syntax_spec(env, name, args, amb, line))
    } else if name == "print_symbolic"@ {
        Some(b_print_symbolic_spec(env, name, args, amb, line))
    } else if name == "print_decimal"@ {
        Some(b_print_decimal_spec(env, name, args, amb, line))
    } else {
        None
    }
}

/// The builtins of group 6, when `name` is one of them.
pub open spec fn call_group6_spec(env: CheckEnv, name: Seq<char>, args: Seq<ExprV>, amb: Seq<char>, line: usize) -> Option<Result<PassportV, DiagnosticV>>
    decreases 2 * args_size(args) + 1, args.len() + 2,
{
    if name == "print_text"@ {
        Some(b_print_text_spec(env, name, args, amb, line))
    } else if name == "inspect_ast"@ {
        Some(b_inspect_ast_spec(env, name, args, amb, line))
    } else if name == "read"@ || name == "read_stdin"@ {
        Some(b_read_spec(env, name, args, amb, line))
    } else if name == "parse_nat"@ {
        Some(b_parse_nat_spec(env, name, args, amb, line))
    } else if name == "axiom_true"@ || name == "assume_true"@ {
        Some(b_axiom_true_spec(env, name, args, amb, line))
    } else if name == "axiom_nat"@ || name == "assume_nat"@ {
        Some(b_axiom_nat_spec(env, name, args, amb, line))
    } else if name == "unsafe_nat"@ || name == "unsafe_assume_nat"@ {
        Some(b_unsafe_nat_spec(env, name, args, amb, line))
    } else if name == "read_nat"@ {
        Some(b_read_nat_spec(env, name, args, amb, line))
    } else if name == "require"@ {
        Some(b_require_spec(env, name, args, amb, line))
    } else if name == "prove"@ {
        Some(b_prove_spec(env, name, args, amb, line))
    } else if name == "prop_true"@ || name == "true_prop"@ || name == "proposition_true"@ {
        Some(b_prop_true_spec(env, name, args, amb, line))
    } else if name == "prop_gt"@ || name == "gt_prop"@ {
        Some(b_prop_gt_spec(env, name, args, amb, line))
    } else {
        None
    }
}

/// The builtins of group 7, when `name` is one of them.
pub open spec fn call_group7_spec(env: CheckEnv, name: Seq<char>, args: Seq<ExprV>, amb: Seq<char>, line: usize) -> Option<Result<PassportV, DiagnosticV>>
    decreases 2 * args_size(args) + 1, args.len() + 2,
{
    if name == "provable_of"@ || name == "provability_of"@ || name == "provable"@ {
        Some(b_provable_of_spec(env, name, args, amb, line))
    } else if name == "truth_from_provable"@ || name == "assert_truth"@ || name == "truth"@ {
        Some(b_truth_from_provable_spec(env, name, args, amb, line))
    } else if name == "truth_from_provable_axiom"@ || name == "assume_truth_from_provable"@ {
        Some(b_truth_from_provable_axiom_spec(env, name, args, amb, line))
    } else if name == "consistency_claim"@ || name == "consistency_of_current"@ || name == "consistent_current"@ {
        Some(b_consistency_claim_spec(env, name, args, amb, line))
    } else if name == "prove_consistency"@ || name == "prove_own_consistency"@ {
        Some(b_prove_consistency_spec(env, name, args, amb, line))
    } else if name == "consistency_axiom"@ || name == "assume_consistency"@ || name == "consistency_from_axiom"@ {
        Some(b_consistency_axiom_spec(env, name, args, amb, line))
    } else if name == "reflection_claim"@ || name == "reflection_of"@ {
        Some(b_reflection_claim_spec(env, name, args, amb, line))
    } else if name == "reflection_axiom"@ || name == "assume_reflection"@ {
        Some(b_reflection_axiom_spec(env, name, args, amb, line))
    } else if name == "self_reference"@ || name == "self_reference_claim"@ {
        Some(b_self_reference_spec(env, name, args, amb, line))
    } else if name == "godel_sentence"@ {
        Some(b_godel_sentence_spec(env, name, args, amb, line))
    } else if name == "self_reference_axiom"@ || name == "assume_self_reference"@ {
        Some(b_self_reference_axiom_spec(env, name, args, amb, line))
    } else if name == "reflect_provable"@ || name == "prove_self_reference"@ || name == "truth_of_self_reference"@ || name == "truth_of_self"@ || name == "says_unprovable_self"@ || name == "liar_sentence"@ || name == "truth_of_own_truth"@ {
        Some(b_reflect_provable_spec(env, name, args, amb, line))
    } else {
        None
    }
}

/// The builtins of group 8, when `name` is one of them.
pub open spec fn call_group8_spec(env: CheckEnv, name: Seq<char>, args: Seq<ExprV>, amb: Seq<char>, line: usize) -> Option<Result<PassportV, DiagnosticV>>
    decreases 2 * args_size(args) + 1, args.len() + 2,
{
    if name == "proof_true"@ || name == "true_intro"@ {
        Some(b_proof_true_spec(env, name, args, amb, line))
    } else if name == "proof_gt"@ || name == "gt_intro"@ {
        Some(b_proof_gt_spec(env, name, args, amb, line))
    } else if name == "check_proof"@ || name == "kernel_check"@ || name == "verify_proof"@ {
        Some(b_check_proof_spec(env, name, args, amb, line))
    } else if name == "fake_proof"@ || name == "unchecked_proof"@ || name == "bare_proof"@ {
        Some(b_fake_proof_spec(env, name, args, amb, line))
    } else if name == "quote"@ {
        Some(b_quote_spec(env, name, args, amb, line))
    } else if name == "transport"@ {
        Some(b_transport_spec(env, name, args, amb, line))
    } else if name == "soundness"@ {
        Some(b_soundness_spec(env, name, args, amb, line))
    } else {
        None
    }
}

/// What calling `name` with `args` gives.
pub open spec fn call_spec(env: CheckEnv, name: Seq<char>, args: Seq<ExprV>, amb: Seq<char>, line: usize) -> Result<PassportV, DiagnosticV>
    decreases 2 * args_size(args) + 1, args.len() + 3,
{
    match call_group0_spec(env, name, args, amb, line) {
        Some(r) => r,
        None => match call_group1_spec(env, name, args, amb, line) {
            Some(r) => r,
            None => match call_group2_spec(env, name, args, amb, line) {
                Some(r) => r,
                None => match call_group3_spec(env, name, args, amb, line) {
                    Some(r) => r,
                    None => match call_group4_spec(env, name, args, amb, line) {
                        Some(r) => r,
                        None => match call_group5_spec(env, name, args, amb, line) {
                            Some(r) => r,
                            None => match call_group6_spec(env, name, args, amb, line) {
                                Some(r) => r,
                                None => match call_group7_spec(env, name, args, amb, line) {
                                    Some(r) => r,
                                    None => match call_group8_spec(env, name, args, amb, line) {
                                        Some(r) => r,
                                        None => Err(error_model(DiagnosticKind::NameError, Some(line), "unknown builtin or function '"@ + name + "' in MVP"@)),
                                    },
                                },
                            },
                        },
                    },
                },
            },
        },
    }
}

impl Checker {
    pub(crate) fn b_universe(&self, name: &str, args: &Vec<Expr>, amb: &str, line: usize) -> (r: Result<Passport, Diagnostic>)
        ensures
            passport_result(r) == b_universe_spec(self@.env, name@, args_model(args@), amb@, line),
    {
        proof {
            args_model_lemma(args@);
            lemma_args_size(args_model(args@));
        }
        Err(error_help(DiagnosticKind::UniverseLevelError, line, "ambiguous universe is not allowed", "use an explicit universe constructor: U0(), U1(), U2(), or universe_succ(U n)"))
    }

    pub(crate) fn b_u0(&self, name: &str, args: &Vec<Expr>, amb: &str, line: usize) -> (r: Result<Passport, Diagnostic>)
        ensures
            passport_result(r) == b_u0_spec(self@.env, name@, args_model(args@), amb@, line),
    {
        proof {
            args_model_lemma(args@);
            lemma_args_size(args_model(args@));
        }
        if args.len() != 0 {
            let mut msg = String::new();
            msg.append(name);
            msg.append(" expects no arguments");
            return Err(Diagnostic::error(DiagnosticKind::ParseError, Some(line), msg.as_str()));
        }
        Ok(Passport::universe(amb, 0))
    }

    pub(crate) fn b_u1(&self, name: &str, args: &Vec<Expr>, amb: &str, line: usize) -> (r: Result<Passport, Diagnostic>)
        ensures
            passport_result(r) == b_u1_spec(self@.env, name@, args_model(args@), amb@, line),
    {
        proof {
            args_model_lemma(args@);
            lemma_args_size(args_model(args@));
        }
        if args.len() != 0 {
            let mut msg = String::new();
            msg.append(name);
            msg.append(" expects no arguments");
            return Err(Diagnostic::error(DiagnosticKind::ParseError, Some(line), msg.as_str()));
        }
        Ok(Passport::universe(amb, 1))
    }

    pub(crate) fn b_u2(&self, name: &str, args: &Vec<Expr>, amb: &str, line: usize) -> (r: Result<Passport, Diagnostic>)
        ensures
            passport_result(r) == b_u2_spec(self@.env, name@, args_model(args@), amb@, line),
    {
        proof {
            args_model_lemma(args@);
            lemma_args_size(args_model(args@));
        }
        if args.len() != 0 {
            let mut msg = String::new();
            msg.append(name);
            msg.append(" expects no arguments");
            return Err(Diagnostic::error(DiagnosticKind::ParseError, Some(line), msg.as_str()));
        }
        Ok(Passport::universe(amb, 2))
    }

    pub(crate) fn b_universe_succ(&self, name: &str, args: &Vec<Expr>, amb: &str, line: usize) -> (r: Result<Passport, Diagnostic>)
        ensures
            passport_result(r) == b_universe_succ_spec(self@.env, name@, args_model(args@), amb@, line),
        decreases 2 * args_size(args_model(args@)) + 1, args@.len() + 1,
    {
        proof {
            args_model_lemma(args@);
            lemma_args_size(args_model(args@));
        }
        if args.len() != 1 {
            let mut msg = String::new();
            msg.append(name);
            msg.append(" expects one Universe argument");
            return Err(Diagnostic::error(DiagnosticKind::ParseError, Some(line), msg.as_str()));
        }
        let value = match self.infer_expr(&args[0], amb) {
            Ok(x) => x,
            Err(d) => return Err(d),
        };
        if !matches!(value.ty, TypeKind::Universe { .. }) {
            let mut help = String::new();
            help.append("value passport: ");
            help.append(value.to_text().as_str());
            return Err(error_help(DiagnosticKind::UniverseLevelError, line, "universe_succ requires a Universe<U n> value", help.as_str()));
        }
        match require_capability(&value, Capability::CanLiftUniverse, line, "universe_succ requires can_lift_universe") {
            Ok(()) => {},
            Err(d) => return Err(d),
        }
        Ok(Passport::universe_succ(&value, amb))
    }

    pub(crate) fn b_set_of(&self, name: &str, args: &Vec<Expr>, amb: &str, line: usize) -> (r: Result<Passport, Diagnostic>)
        ensures
            passport_result(r) == b_set_of_spec(self@.env, name@, args_model(args@), amb@, line),
        decreases 2 * args_size(args_model(args@)) + 1, args@.len() + 1,
    {
        proof {
            args_model_lemma(args@);
            lemma_args_size(args_model(args@));
        }
        if args.len() != 1 {
            let mut msg = String::new();
            msg.append(name);
            msg.append(" expects one Universe argument");
            return Err(Diagnostic::error(DiagnosticKind::ParseError, Some(line), msg.as_str()));
        }
        let value = match self.infer_expr(&args[0], amb) {
            Ok(x) => x,
            Err(d) => return Err(d),
        };
        if !matches!(value.ty, TypeKind::Universe { .. }) {
            let mut help = String::new();
            help.append("value passport: ");
            help.append(value.to_text().as_str());
            return Err(error_help(DiagnosticKind::UniverseLevelError, line, "set_of requires a Universe<U n>; sets cannot be formed from Set/Class values directly", help.as_str()));
        }
        match require_capability(&value, Capability::CanFormSet, line, "set_of requires can_form_set") {
            Ok(()) => {},
            Err(d) => return Err(d),
        }
        if universe_level_of(&value.ty) == 255 {
            return Err(error_help(DiagnosticKind::UniverseLevelError, line, "cannot form Set<U255 -> U256> in MVP universe hierarchy", "MVP uses u8 universe levels; choose a smaller universe level."));
        }
        Ok(Passport::set_of_universe(&value, amb))
    }

    pub(crate) fn b_class_of(&self, name: &str, args: &Vec<Expr>, amb: &str, line: usize) -> (r: Result<Passport, Diagnostic>)
        ensures
            passport_result(r) == b_class_of_spec(self@.env, name@, args_model(args@), amb@, line),
        decreases 2 * args_size(args_model(args@)) + 1, args@.len() + 1,
    {
        proof {
            args_model_lemma(args@);
            lemma_args_size(args_model(args@));
        }
        if args.len() != 1 {
            let mut msg = String::new();
            msg.append(name);
            msg.append(" expects one Universe argument");
            return Err(Diagnostic::error(DiagnosticKind::ParseError, Some(line), msg.as_str()));
        }
        let value = match self.infer_expr(&args[0], amb) {
            Ok(x) => x,
            Err(d) => return Err(d),
        };
        if !matches!(value.ty, TypeKind::Universe { .. }) {
            let mut help = String::new();
            help.append("value passport: ");
            help.append(value.to_text().as_str());
            return Err(error_help(DiagnosticKind::UniverseLevelError, line, "class_of requires a Universe<U n>; classes are meta-level views of universes", help.as_str()));
        }
        match require_capability(&value, Capability::CanFormClass, line, "class_of requires can_form_class") {
            Ok(()) => {},
            Err(d) => return Err(d),
        }
        Ok(Passport::class_of_universe(&value, amb))
    }

    pub(crate) fn b_set_lives_in(&self, name: &str, args: &Vec<Expr>, amb: &str, line: usize) -> (r: Result<Passport, Diagnostic>)
        ensures
            passport_result(r) == b_set_lives_in_spec(self@.env, name@, args_model(args@), amb@, line),
        decreases 2 * args_size(args_model(args@)) + 1, args@.len() + 1,
    {
        proof {
            args_model_lemma(args@);
            lemma_args_size(args_model(args@));
        }
        if args.len() != 1 {
            return Err(Diagnostic::error(DiagnosticKind::ParseError, Some(line), "set_lives_in expects one Set argument"));
        }
        let value = match self.infer_expr(&args[0], amb) {
            Ok(x) => x,
            Err(d) => return Err(d),
        };
        if !matches!(value.ty, TypeKind::SetType { .. }) {
            let mut help = String::new();
            help.append("value passport: ");
            help.append(value.to_text().as_str());
            return Err(error_help(DiagnosticKind::UniverseLevelError, line, "set_lives_in requires Set<U n -> U n+1>", help.as_str()));
        }
        match require_capability(&value, Capability::CanSetReason, line, "set_lives_in requires can_set_reason") {
            Ok(()) => {},
            Err(d) => return Err(d),
        }
        Ok(Passport::universe_level_nat(amb, &value, "set:lives_in_level"))
    }

    pub(crate) fn b_class_level(&self, name: &str, args: &Vec<Expr>, amb: &str, line: usize) -> (r: Result<Passport, Diagnostic>)
        ensures
            passport_result(r) == b_class_level_spec(self@.env, name@, args_model(args@), amb@, line),
        decreases 2 * args_size(args_model(args@)) + 1, args@.len() + 1,
    {
        proof {
            args_model_lemma(args@);
            lemma_args_size(args_model(args@));
        }
        if args.len() != 1 {
            return Err(Diagnostic::error(DiagnosticKind::ParseError, Some(line), "class_level expects one Class argument"));
        }
        let value = match self.infer_expr(&args[0], amb) {
            Ok(x) => x,
            Err(d) => return Err(d),
        };
        if !matches!(value.ty, TypeKind::Class { .. }) {
            let mut help = String::new();
            help.append("value passport: ");
            help.append(value.to_text().as_str());
            return Err(error_help(DiagnosticKind::UniverseLevelError, line, "class_level requires Class<U n>", help.as_str()));
        }
        match require_capability(&value, Capability::CanClassReason, line, "class_level requires can_class_reason") {
            Ok(()) => {},
            Err(d) => return Err(d),
        }
        Ok(Passport::universe_level_nat(amb, &value, "class:level"))
    }

    pub(crate) fn b_set_of_all_sets(&self, name: &str, args: &Vec<Expr>, amb: &str, line: usize) -> (r: Result<Passport, Diagnostic>)
        ensures
            passport_result(r) == b_set_of_all_sets_spec(self@.env, name@, args_model(args@), amb@, line),
    {
        proof {
            args_model_lemma(args@);
            lemma_args_size(args_model(args@));
        }
        Err(error_help(DiagnosticKind::UniverseLevelError, line, "set_of_all_sets is not a valid object in the current universe hierarchy", "Use class_of(U n) for a proper-class/meta-level view, or set_of(U n) to form a set in U n+1 from one explicit universe level."))
    }

    pub(crate) fn b_language_l0(&self, name: &str, args: &Vec<Expr>, amb: &str, line: usize) -> (r: Result<Passport, Diagnostic>)
        ensures
            passport_result(r) == b_language_l0_spec(self@.env, name@, args_model(args@), amb@, line),
    {
        proof {
            args_model_lemma(args@);
            lemma_args_size(args_model(args@));
        }
        if args.len() != 0 {
            let mut msg = String::new();
            msg.append(name);
            msg.append(" expects no arguments");
            return Err(Diagnostic::error(DiagnosticKind::DefinabilityError, Some(line), msg.as_str()));
        }
        Ok(Passport::language(amb, "L0"))
    }

    pub(crate) fn b_encoding_godel(&self, name: &str, args: &Vec<Expr>, amb: &str, line: usize) -> (r: Result<Passport, Diagnostic>)
        ensures
            passport_result(r) == b_encoding_godel_spec(self@.env, name@, args_model(args@), amb@, line),
    {
        proof {
            args_model_lemma(args@);
            lemma_args_size(args_model(args@));
        }
        if args.len() != 0 {
            let mut msg = String::new();
            msg.append(name);
            msg.append(" expects no arguments");
            return Err(Diagnostic::error(DiagnosticKind::DefinabilityError, Some(line), msg.as_str()));
        }
        Ok(Passport::encoding(amb, "Godel"))
    }

    pub(crate) fn b_meta_level(&self, name: &str, args: &Vec<Expr>, amb: &str, line: usize) -> (r: Result<Passport, Diagnostic>)
        ensures
            passport_result(r) == b_meta_level_spec(self@.env, name@, args_model(args@), amb@, line),
    {
        proof {
            args_model_lemma(args@);
            lemma_args_size(args_model(args@));
        }
        if args.len() != 1 {
            let mut msg = String::new();
            msg.append(name);
            msg.append(" expects one literal Nat level");
            return Err(Diagnostic::error(DiagnosticKind::DefinabilityError, Some(line), msg.as_str()));
        }
        let raw = match literal_u128(&args[0]) {
            Some(x) => x,
            None => {
                return Err(Diagnostic::error(DiagnosticKind::DefinabilityError, Some(line), "meta_level requires a literal Nat in MVP"));
            },
        };
        if raw > 255 {
            return Err(Diagnostic::error(DiagnosticKind::DefinabilityError, Some(line), "meta_level is limited to u8 in MVP"));
        }
        Ok(Passport::meta_level(amb, raw as u8, None))
    }

    pub(crate) fn b_definable_nat(&self, name: &str, args: &Vec<Expr>, amb: &str, line: usize) -> (r: Result<Passport, Diagnostic>)
        ensures
            passport_result(r) == b_definable_nat_spec(self@.env, name@, args_model(args@), amb@, line),
        decreases 2 * args_size(args_model(args@)) + 1, args@.len() + 1,
    {
        proof {
            args_model_lemma(args@);
            lemma_args_size(args_model(args@));
        }
        if args.len() != 4 {
            return Err(error_help(DiagnosticKind::DefinabilityError, line, "definable_nat requires explicit language, encoding, bound and meta-level", "use: definable_nat(language_L0(), encoding_godel(), 20, meta_level(1))"));
        }
        let language = match self.infer_expr(&args[0], amb) {
            Ok(x) => x,
            Err(d) => return Err(d),
        };
        if !matches!(language.ty, TypeKind::Language { .. }) {
            let mut help = String::new();
            help.append("value passport: ");
            help.append(language.to_text().as_str());
            return Err(error_help(DiagnosticKind::DefinabilityError, line, "definable_nat requires Language as first argument", help.as_str()));
        }
        match require_capability(&language, Capability::CanDefineInLanguage, line, "definable_nat language requires can_define_in_language") {
            Ok(()) => {},
            Err(d) => return Err(d),
        }
        let encoding = match self.infer_expr(&args[1], amb) {
            Ok(x) => x,
            Err(d) => return Err(d),
        };
        if !matches!(encoding.ty, TypeKind::Encoding { .. }) {
            let mut help = String::new();
            help.append("value passport: ");
            help.append(encoding.to_text().as_str());
            return Err(error_help(DiagnosticKind::DefinabilityError, line, "definable_nat requires Encoding as second argument", help.as_str()));
        }
        match require_capability(&encoding, Capability::CanUseEncoding, line, "definable_nat encoding requires can_use_encoding") {
            Ok(()) => {},
            Err(d) => return Err(d),
        }
        let bound = match literal_u128(&args[2]) {
            Some(x) => x,
            None => {
                return Err(Diagnostic::error(DiagnosticKind::DefinabilityError, Some(line), "definable_nat bound must be a literal Nat in MVP"));
            },
        };
        if bound == 0 {
            return Err(Diagnostic::error(DiagnosticKind::DefinabilityError, Some(line), "definable_nat bound must be greater than zero"));
        }
        let meta = match self.infer_expr(&args[3], amb) {
            Ok(x) => x,
            Err(d) => return Err(d),
        };
        if !matches!(meta.ty, TypeKind::MetaLevel { .. }) {
            let mut help = String::new();
            help.append("value passport: ");
            help.append(meta.to_text().as_str());
            return Err(error_help(DiagnosticKind::DefinabilityError, line, "definable_nat requires MetaLevel as fourth argument", help.as_str()));
        }
        match require_capability(&meta, Capability::CanMetaLevelReason, line, "definable_nat meta-level requires can_meta_level_reason") {
            Ok(()) => {},
            Err(d) => return Err(d),
        }
        Ok(Passport::definable_nat(amb, &language, &encoding, bound, &meta))
    }

    pub(crate) fn b_definability_bound(&self, name: &str, args: &Vec<Expr>, amb: &str, line: usize) -> (r: Result<Passport, Diagnostic>)
        ensures
            passport_result(r) == b_definability_bound_spec(self@.env, name@, args_model(args@), amb@, line),
        decreases 2 * args_size(args_model(args@)) + 1, args@.len() + 1,
    {
        proof {
            args_model_lemma(args@);
            lemma_args_size(args_model(args@));
        }
        if args.len() != 1 {
            let mut msg = String::new();
            msg.append(name);
            msg.append(" expects one DefinableNat argument");
            return Err(Diagnostic::error(DiagnosticKind::DefinabilityError, Some(line), msg.as_str()));
        }
        let value = match self.infer_expr(&args[0], amb) {
            Ok(x) => x,
            Err(d) => return Err(d),
        };
        if !matches!(value.ty, TypeKind::DefinableNat { .. }) {
            let mut help = String::new();
            help.append("value passport: ");
            help.append(value.to_text().as_str());
            return Err(error_help(DiagnosticKind::DefinabilityError, line, "definability_bound requires DefinableNat", help.as_str()));
        }
        match require_capability(&value, Capability::CanExtractDefinabilityBound, line, "definability_bound requires can_extract_definability_bound") {
            Ok(()) => {},
            Err(d) => return Err(d),
        }
        Ok(Passport::definability_resource_nat(amb, &value, "definability:bound"))
    }

    pub(crate) fn b_definability_meta_level(&self, name: &str, args: &Vec<Expr>, amb: &str, line: usize) -> (r: Result<Passport, Diagnostic>)
        ensures
            passport_result(r) == b_definability_meta_level_spec(self@.env, name@, args_model(args@), amb@, line),
        decreases 2 * args_size(args_model(args@)) + 1, args@.len() + 1,
    {
        proof {
            args_model_lemma(args@);
            lemma_args_size(args_model(args@));
        }
        if args.len() != 1 {
            let mut msg = String::new();
            msg.append(name);
            msg.append(" expects one DefinableNat argument");
            return Err(Diagnostic::error(DiagnosticKind::DefinabilityError, Some(line), msg.as_str()));
        }
        let value = match self.infer_expr(&args[0], amb) {
            Ok(x) => x,
            Err(d) => return Err(d),
        };
        if !matches!(value.ty, TypeKind::DefinableNat { .. }) {
            let mut help = String::new();
            help.append("value passport: ");
            help.append(value.to_text().as_str());
            return Err(error_help(DiagnosticKind::DefinabilityError, line, "definability_meta_level requires DefinableNat", help.as_str()));
        }
        match require_capability(&value, Capability::CanExtractDefinabilityMeta, line, "definability_meta_level requires can_extract_definability_meta") {
            Ok(()) => {},
            Err(d) => return Err(d),
        }
        Ok(Passport::definability_resource_nat(amb, &value, "definability:meta_level"))
    }

    pub(crate) fn b_berry_number(&self, name: &str, args: &Vec<Expr>, amb: &str, line: usize) -> (r: Result<Passport, Diagnostic>)
        ensures
            passport_result(r) == b_berry_number_spec(self@.env, name@, args_model(args@), amb@, line),
    {
        proof {
            args_model_lemma(args@);
            lemma_args_size(args_model(args@));
        }
        Err(error_help(DiagnosticKind::DefinabilityError, line, "bare undefinability/Berry-style construction is not allowed", "Definability must be relative: Definable<n, language, encoding, theory, bound, meta-level>. Use definable_nat(language_L0(), encoding_godel(), bound, meta_level(k)) for explicit definability passports."))
    }

    pub(crate) fn b_big_number(&self, name: &str, args: &Vec<Expr>, amb: &str, line: usize) -> (r: Result<Passport, Diagnostic>)
        ensures
            passport_result(r) == b_big_number_spec(self@.env, name@, args_model(args@), amb@, line),
    {
        proof {
            args_model_lemma(args@);
            lemma_args_size(args_model(args@));
        }
        Err(error_help(DiagnosticKind::BigNumberError, line, "bare big_number is not allowed", "use an explicit constructor: Graham(), TREE(n), BB(n), or fast_growing(level)"))
    }

    pub(crate) fn b_graham(&self, name: &str, args: &Vec<Expr>, amb: &str, line: usize) -> (r: Result<Passport, Diagnostic>)
        ensures
            passport_result(r) == b_graham_spec(self@.env, name@, args_model(args@), amb@, line),
    {
        proof {
            args_model_lemma(args@);
            lemma_args_size(args_model(args@));
        }
        if args.len() != 0 {
            return Err(Diagnostic::error(DiagnosticKind::BigNumberError, Some(line), "Graham expects no arguments"));
        }
        Ok(Passport::graham_nat(amb))
    }

    pub(crate) fn b_tree(&self, name: &str, args: &Vec<Expr>, amb: &str, line: usize) -> (r: Result<Passport, Diagnostic>)
        ensures
            passport_result(r) == b_tree_spec(self@.env, name@, args_model(args@), amb@, line),
        decreases 2 * args_size(args_model(args@)) + 1, args@.len() + 1,
    {
        proof {
            args_model_lemma(args@);
            lemma_args_size(args_model(args@));
        }
        if args.len() != 1 {
            return Err(Diagnostic::error(DiagnosticKind::BigNumberError, Some(line), "TREE expects one positive literal Nat parameter in MVP"));
        }
        let parameter = match literal_u128(&args[0]) {
            Some(x) => x,
            None => {
                return Err(Diagnostic::error(DiagnosticKind::BigNumberError, Some(line), "TREE parameter must be a literal Nat in MVP"));
            },
        };
        if parameter == 0 {
            return Err(Diagnostic::error(DiagnosticKind::BigNumberError, Some(line), "TREE parameter must be greater than zero"));
        }
        let arg = match self.infer_expr(&args[0], amb) {
            Ok(x) => x,
            Err(d) => return Err(d),
        };
        match require_capability(&arg, Capability::CanAddAsNat, line, "TREE argument must be Nat-like") {
            Ok(()) => {},
            Err(d) => return Err(d),
        }
        Ok(Passport::tree_nat(amb, parameter))
    }

    pub(crate) fn b_bb(&self, name: &str, args: &Vec<Expr>, amb: &str, line: usize) -> (r: Result<Passport, Diagnostic>)
        ensures
            passport_result(r) == b_bb_spec(self@.env, name@, args_model(args@), amb@, line),
        decreases 2 * args_size(args_model(args@)) + 1, args@.len() + 1,
    {
        proof {
            args_model_lemma(args@);
            lemma_args_size(args_model(args@));
        }
        if args.len() != 1 {
            return Err(Diagnostic::error(DiagnosticKind::BigNumberError, Some(line), "BB expects one positive literal Nat parameter in MVP"));
        }
        let parameter = match literal_u128(&args[0]) {
            Some(x) => x,
            None => {
                return Err(Diagnostic::error(DiagnosticKind::BigNumberError, Some(line), "BB parameter must be a literal Nat in MVP"));
            },
        };
        if parameter == 0 {
            return Err(Diagnostic::error(DiagnosticKind::BigNumberError, Some(line), "BB parameter must be greater than zero"));
        }
        let arg = match self.infer_expr(&args[0], amb) {
            Ok(x) => x,
            Err(d) => return Err(d),
        };
        match require_capability(&arg, Capability::CanAddAsNat, line, "BB argument must be Nat-like") {
            Ok(()) => {},
            Err(d) => return Err(d),
        }
        Ok(Passport::busy_beaver_nat(amb, Some(parameter)))
    }

    pub(crate) fn b_fast_growing(&self, name: &str, args: &Vec<Expr>, amb: &str, line: usize) -> (r: Result<Passport, Diagnostic>)
        ensures
            passport_result(r) == b_fast_growing_spec(self@.env, name@, args_model(args@), amb@, line),
    {
        proof {
            args_model_lemma(args@);
            lemma_args_size(args_model(args@));
        }
        if args.len() != 1 {
            return Err(Diagnostic::error(DiagnosticKind::BigNumberError, Some(line), "fast_growing expects one positive literal Nat level in MVP"));
        }
        let level = match literal_u128(&args[0]) {
            Some(x) => x,
            None => {
                return Err(Diagnostic::error(DiagnosticKind::BigNumberError, Some(line), "fast_growing level must be a literal Nat in MVP"));
            },
        };
        if level == 0 {
            return Err(Diagnostic::error(DiagnosticKind::BigNumberError, Some(line), "fast_growing level must be greater than zero"));
        }
        Ok(Passport::fast_growing_nat(amb, level))
    }

    pub(crate) fn b_growth_parameter(&self, name: &str, args: &Vec<Expr>, amb: &str, line: usize) -> (r: Result<Passport, Diagnostic>)
        ensures
            passport_result(r) == b_growth_parameter_spec(self@.env, name@, args_model(args@), amb@, line),
        decreases 2 * args_size(args_model(args@)) + 1, args@.len() + 1,
    {
        proof {
            args_model_lemma(args@);
            lemma_args_size(args_model(args@));
        }
        if args.len() != 1 {
            let mut msg = String::new();
            msg.append(name);
            msg.append(" expects one BigNat argument");
            return Err(Diagnostic::error(DiagnosticKind::BigNumberError, Some(line), msg.as_str()));
        }
        let value = match self.infer_expr(&args[0], amb) {
            Ok(x) => x,
            Err(d) => return Err(d),
        };
        if !matches!(value.ty, TypeKind::BigNat { .. }) {
            let mut help = String::new();
            help.append("value passport: ");
            help.append(value.to_text().as_str());
            return Err(error_help(DiagnosticKind::BigNumberError, line, "growth_parameter requires BigNat", help.as_str()));
        }
        match require_capability(&value, Capability::CanExtractGrowthClass, line, "growth_parameter requires can_extract_growth_class") {
            Ok(()) => {},
            Err(d) => return Err(d),
        }
        Ok(Passport::big_number_resource_nat(amb, &value, "big_number:parameter"))
    }

    pub(crate) fn b_infinity(&self, name: &str, args: &Vec<Expr>, amb: &str, line: usize) -> (r: Result<Passport, Diagnostic>)
        ensures
            passport_result(r) == b_infinity_spec(self@.env, name@, args_model(args@), amb@, line),
    {
        proof {
            args_model_lemma(args@);
            lemma_args_size(args_model(args@));
        }
        Err(error_help(DiagnosticKind::InfinityModeError, line, "ambiguous infinity is not allowed", "use a typed infinity constructor: aleph0()/infinity_cardinal(), omega()/infinity_ordinal(), limit_omega(), potential_infinity(), class_infinity(class_of(U0())), or universe_infinity(U0())"))
    }

    pub(crate) fn b_aleph0(&self, name: &str, args: &Vec<Expr>, amb: &str, line: usize) -> (r: Result<Passport, Diagnostic>)
        ensures
            passport_result(r) == b_aleph0_spec(self@.env, name@, args_model(args@), amb@, line),
    {
        proof {
            args_model_lemma(args@);
            lemma_args_size(args_model(args@));
        }
        if args.len() != 0 {
            let mut msg = String::new();
            msg.append(name);
            msg.append(" expects no arguments");
            return Err(Diagnostic::error(DiagnosticKind::ParseError, Some(line), msg.as_str()));
        }
        Ok(Passport::cardinal_infinity(amb))
    }

    pub(crate) fn b_omega(&self, name: &str, args: &Vec<Expr>, amb: &str, line: usize) -> (r: Result<Passport, Diagnostic>)
        ensures
            passport_result(r) == b_omega_spec(self@.env, name@, args_model(args@), amb@, line),
    {
        proof {
            args_model_lemma(args@);
            lemma_args_size(args_model(args@));
        }
        if args.len() != 0 {
            let mut msg = String::new();
            msg.append(name);
            msg.append(" expects no arguments");
            return Err(Diagnostic::error(DiagnosticKind::ParseError, Some(line), msg.as_str()));
        }
        Ok(Passport::ordinal_infinity(amb))
    }

    pub(crate) fn b_limit_omega(&self, name: &str, args: &Vec<Expr>, amb: &str, line: usize) -> (r: Result<Passport, Diagnostic>)
        ensures
            passport_result(r) == b_limit_omega_spec(self@.env, name@, args_model(args@), amb@, line),
    {
        proof {
            args_model_lemma(args@);
            lemma_args_size(args_model(args@));
        }
        if args.len() != 0 {
            let mut msg = String::new();
            msg.append(name);
            msg.append(" expects no arguments");
            return Err(Diagnostic::error(DiagnosticKind::ParseError, Some(line), msg.as_str()));
        }
        Ok(Passport::limit_infinity(amb))
    }

    pub(crate) fn b_potential_infinity(&self, name: &str, args: &Vec<Expr>, amb: &str, line: usize) -> (r: Result<Passport, Diagnostic>)
        ensures
            passport_result(r) == b_potential_infinity_spec(self@.env, name@, args_model(args@), amb@, line),
    {
        proof {
            args_model_lemma(args@);
            lemma_args_size(args_model(args@));
        }
        if args.len() != 0 {
            let mut msg = String::new();
            msg.append(name);
            msg.append(" expects no arguments");
            return Err(Diagnostic::error(DiagnosticKind::ParseError, Some(line), msg.as_str()));
        }
        Ok(Passport::potential_infinity(amb))
    }

    pub(crate) fn b_class_infinity(&self, name: &str, args: &Vec<Expr>, amb: &str, line: usize) -> (r: Result<Passport, Diagnostic>)
        ensures
            passport_result(r) == b_class_infinity_spec(self@.env, name@, args_model(args@), amb@, line),
        decreases 2 * args_size(args_model(args@)) + 1, args@.len() + 1,
    {
        proof {
            args_model_lemma(args@);
            lemma_args_size(args_model(args@));
        }
        if args.len() != 1 {
            let mut msg = String::new();
            msg.append(name);
            msg.append(" expects one Class argument");
            return Err(Diagnostic::error(DiagnosticKind::ParseError, Some(line), msg.as_str()));
        }
        let value = match self.infer_expr(&args[0], amb) {
            Ok(x) => x,
            Err(d) => return Err(d),
        };
        if !matches!(value.ty, TypeKind::Class { .. }) {
            let mut help = String::new();
            help.append("value passport: ");
            help.append(value.to_text().as_str());
            return Err(error_help(DiagnosticKind::InfinityModeError, line, "class_infinity requires Class<U n>", help.as_str()));
        }
        match require_capability(&value, Capability::CanClassReason, line, "class_infinity requires can_class_reason") {
            Ok(()) => {},
            Err(d) => return Err(d),
        }
        Ok(Passport::class_infinity(amb, &value))
    }

    pub(crate) fn b_universe_infinity(&self, name: &str, args: &Vec<Expr>, amb: &str, line: usize) -> (r: Result<Passport, Diagnostic>)
        ensures
            passport_result(r) == b_universe_infinity_spec(self@.env, name@, args_model(args@), amb@, line),
        decreases 2 * args_size(args_model(args@)) + 1, args@.len() + 1,
    {
        proof {
            args_model_lemma(args@);
            lemma_args_size(args_model(args@));
        }
        if args.len() != 1 {
            let mut msg = String::new();
            msg.append(name);
            msg.append(" expects one Universe argument");
            return Err(Diagnostic::error(DiagnosticKind::ParseError, Some(line), msg.as_str()));
        }
        let value = match self.infer_expr(&args[0], amb) {
            Ok(x) => x,
            Err(d) => return Err(d),
        };
        if !matches!(value.ty, TypeKind::Universe { .. }) {
            let mut help = String::new();
            help.append("value passport: ");
            help.append(value.to_text().as_str());
            return Err(error_help(DiagnosticKind::UniverseLevelError, line, "universe_infinity requires Universe<U n>", help.as_str()));
        }
        match require_capability(&value, Capability::CanUniverseLevel, line, "universe_infinity requires can_universe_level") {
            Ok(()) => {},
            Err(d) => return Err(d),
        }
        Ok(Passport::universe_infinity(amb, &value))
    }

    pub(crate) fn b_cardinal_succ(&self, name: &str, args: &Vec<Expr>, amb: &str, line: usize) -> (r: Result<Passport, Diagnostic>)
        ensures
            passport_result(r) == b_cardinal_succ_spec(self@.env, name@, args_model(args@), amb@, line),
        decreases 2 * args_size(args_model(args@)) + 1, args@.len() + 1,
    {
        proof {
            args_model_lemma(args@);
            lemma_args_size(args_model(args@));
        }
        if args.len() != 1 {
            return Err(Diagnostic::error(DiagnosticKind::ParseError, Some(line), "cardinal_succ expects one cardinal infinity argument"));
        }
        let value = match self.infer_expr(&args[0], amb) {
            Ok(x) => x,
            Err(d) => return Err(d),
        };
        if !is_infinity_mode(&value.ty, InfinityMode::Cardinal) {
            let mut help = String::new();
            help.append("value passport: ");
            help.append(value.to_text().as_str());
            return Err(error_help(DiagnosticKind::InfinityModeError, line, "cardinal_succ requires Infinity<cardinal>", help.as_str()));
        }
        match require_capability(&value, Capability::CanCardinalArithmetic, line, "cardinal_succ requires can_cardinal_arithmetic") {
            Ok(()) => {},
            Err(d) => return Err(d),
        }
        Ok(Passport::infinity_succ_result(&value, amb))
    }

    pub(crate) fn b_ordinal_succ(&self, name: &str, args: &Vec<Expr>, amb: &str, line: usize) -> (r: Result<Passport, Diagnostic>)
        ensures
            passport_result(r) == b_ordinal_succ_spec(self@.env, name@, args_model(args@), amb@, line),
        decreases 2 * args_size(args_model(args@)) + 1, args@.len() + 1,
    {
        proof {
            args_model_lemma(args@);
            lemma_args_size(args_model(args@));
        }
        if args.len() != 1 {
            return Err(Diagnostic::error(DiagnosticKind::ParseError, Some(line), "ordinal_succ expects one ordinal infinity argument"));
        }
        let value = match self.infer_expr(&args[0], amb) {
            Ok(x) => x,
            Err(d) => return Err(d),
        };
        if !is_infinity_mode(&value.ty, InfinityMode::Ordinal) {
            let mut help = String::new();
            help.append("value passport: ");
            help.append(value.to_text().as_str());
            return Err(error_help(DiagnosticKind::InfinityModeError, line, "ordinal_succ requires Infinity<ordinal>", help.as_str()));
        }
        match require_capability(&value, Capability::CanOrdinalArithmetic, line, "ordinal_succ requires can_ordinal_arithmetic") {
            Ok(()) => {},
            Err(d) => return Err(d),
        }
        Ok(Passport::infinity_succ_result(&value, amb))
    }

    pub(crate) fn b_cardinal_add(&self, name: &str, args: &Vec<Expr>, amb: &str, line: usize) -> (r: Result<Passport, Diagnostic>)
        ensures
            passport_result(r) == b_cardinal_add_spec(self@.env, name@, args_model(args@), amb@, line),
        decreases 2 * args_size(args_model(args@)) + 1, args@.len() + 1,
    {
        proof {
            args_model_lemma(args@);
            lemma_args_size(args_model(args@));
        }
        if args.len() != 2 {
            let mut msg = String::new();
            msg.append(name);
            msg.append(" expects two cardinal infinity arguments");
            return Err(Diagnostic::error(DiagnosticKind::ParseError, Some(line), msg.as_str()));
        }
        let lhs = match self.infer_expr(&args[0], amb) {
            Ok(x) => x,
            Err(d) => return Err(d),
        };
        let rhs = match self.infer_expr(&args[1], amb) {
            Ok(x) => x,
            Err(d) => return Err(d),
        };
        if !is_infinity_mode(&lhs.ty, InfinityMode::Cardinal) {
            let mut help = String::new();
            help.append("value passport: ");
            help.append(lhs.to_text().as_str());
            return Err(error_help(DiagnosticKind::InfinityModeError, line, "cardinal_add requires Infinity<cardinal> on the left", help.as_str()));
        }
        if !is_infinity_mode(&rhs.ty, InfinityMode::Cardinal) {
            let mut help = String::new();
            help.append("value passport: ");
            help.append(rhs.to_text().as_str());
            return Err(error_help(DiagnosticKind::InfinityModeError, line, "cardinal_add requires Infinity<cardinal> on the right", help.as_str()));
        }
        match require_capability(&lhs, Capability::CanCardinalArithmetic, line, "cardinal_add requires can_cardinal_arithmetic on the left") {
            Ok(()) => {},
            Err(d) => return Err(d),
        }
        match require_capability(&rhs, Capability::CanCardinalArithmetic, line, "cardinal_add requires can_cardinal_arithmetic on the right") {
            Ok(()) => {},
            Err(d) => return Err(d),
        }
        Ok(Passport::infinity_binary_result(&lhs, &rhs, amb, "infinity:cardinal_add"))
    }

    pub(crate) fn b_ordinal_add(&self, name: &str, args: &Vec<Expr>, amb: &str, line: usize) -> (r: Result<Passport, Diagnostic>)
        ensures
            passport_result(r) == b_ordinal_add_spec(self@.env, name@, args_model(args@), amb@, line),
        decreases 2 * args_size(args_model(args@)) + 1, args@.len() + 1,
    {
        proof {
            args_model_lemma(args@);
            lemma_args_size(args_model(args@));
        }
        if args.len() != 2 {
            let mut msg = String::new();
            msg.append(name);
            msg.append(" expects two ordinal infinity arguments");
            return Err(Diagnostic::error(DiagnosticKind::ParseError, Some(line), msg.as_str()));
        }
        let lhs = match self.infer_expr(&args[0], amb) {
            Ok(x) => x,
            Err(d) => return Err(d),
        };
        let rhs = match self.infer_expr(&args[1], amb) {
            Ok(x) => x,
            Err(d) => return Err(d),
        };
        if !is_infinity_mode(&lhs.ty, InfinityMode::Ordinal) {
            let mut help = String::new();
            help.append("value passport: ");
            help.append(lhs.to_text().as_str());
            return Err(error_help(DiagnosticKind::InfinityModeError, line, "ordinal_add requires Infinity<ordinal> on the left", help.as_str()));
        }
        if !is_infinity_mode(&rhs.ty, InfinityMode::Ordinal) {
            let mut help = String::new();
            help.append("value passport: ");
            help.append(rhs.to_text().as_str());
            return Err(error_help(DiagnosticKind::InfinityModeError, line, "ordinal_add requires Infinity<ordinal> on the right", help.as_str()));
        }
        match require_capability(&lhs, Capability::CanOrdinalArithmetic, line, "ordinal_add requires can_ordinal_arithmetic on the left") {
            Ok(()) => {},
            Err(d) => return Err(d),
        }
        match require_capability(&rhs, Capability::CanOrdinalArithmetic, line, "ordinal_add requires can_ordinal_arithmetic on the right") {
            Ok(()) => {},
            Err(d) => return Err(d),
        }
        Ok(Passport::infinity_binary_result(&lhs, &rhs, amb, "infinity:ordinal_add"))
    }

    pub(crate) fn b_potential_step(&self, name: &str, args: &Vec<Expr>, amb: &str, line: usize) -> (r: Result<Passport, Diagnostic>)
        ensures
            passport_result(r) == b_potential_step_spec(self@.env, name@, args_model(args@), amb@, line),
        decreases 2 * args_size(args_model(args@)) + 1, args@.len() + 1,
    {
        proof {
            args_model_lemma(args@);
            lemma_args_size(args_model(args@));
        }
        if args.len() != 1 {
            return Err(Diagnostic::error(DiagnosticKind::ParseError, Some(line), "potential_step expects one potential infinity argument"));
        }
        let value = match self.infer_expr(&args[0], amb) {
            Ok(x) => x,
            Err(d) => return Err(d),
        };
        if !is_infinity_mode(&value.ty, InfinityMode::Potential) {
            let mut help = String::new();
            help.append("value passport: ");
            help.append(value.to_text().as_str());
            return Err(error_help(DiagnosticKind::InfinityModeError, line, "potential_step requires Infinity<potential>", help.as_str()));
        }
        match require_capability(&value, Capability::CanLimitReason, line, "potential_step requires can_limit_reason") {
            Ok(()) => {},
            Err(d) => return Err(d),
        }
        Ok(Passport::infinity_succ_result(&value, amb))
    }

    pub(crate) fn b_node_x86(&self, name: &str, args: &Vec<Expr>, amb: &str, line: usize) -> (r: Result<Passport, Diagnostic>)
        ensures
            passport_result(r) == b_node_x86_spec(self@.env, name@, args_model(args@), amb@, line),
    {
        proof {
            args_model_lemma(args@);
            lemma_args_size(args_model(args@));
        }
        if args.len() != 0 {
            let mut msg = String::new();
            msg.append(name);
            msg.append(" expects no arguments");
            return Err(Diagnostic::error(DiagnosticKind::ParseError, Some(line), msg.as_str()));
        }
        Ok(Passport::node(amb, NodeArch::X86_64))
    }

    pub(crate) fn b_node_arm(&self, name: &str, args: &Vec<Expr>, amb: &str, line: usize) -> (r: Result<Passport, Diagnostic>)
        ensures
            passport_result(r) == b_node_arm_spec(self@.env, name@, args_model(args@), amb@, line),
    {
        proof {
            args_model_lemma(args@);
            lemma_args_size(args_model(args@));
        }
        if args.len() != 0 {
            let mut msg = String::new();
            msg.append(name);
            msg.append(" expects no arguments");
            return Err(Diagnostic::error(DiagnosticKind::ParseError, Some(line), msg.as_str()));
        }
        Ok(Passport::node(amb, NodeArch::Aarch64))
    }

    pub(crate) fn b_node_x86_with(&self, name: &str, args: &Vec<Expr>, amb: &str, line: usize) -> (r: Result<Passport, Diagnostic>)
        ensures
            passport_result(r) == b_node_x86_with_spec(self@.env, name@, args_model(args@), amb@, line),
    {
        proof {
            args_model_lemma(args@);
            lemma_args_size(args_model(args@));
        }
        if args.len() != 2 {
            let mut msg = String::new();
            msg.append(name);
            msg.append(" expects cores and memory_mib");
            return Err(Diagnostic::error(DiagnosticKind::ParseError, Some(line), msg.as_str()));
        }
        let cores = match literal_u128(&args[0]) {
            Some(x) => x,
            None => {
                return Err(Diagnostic::error(DiagnosticKind::DistributedResourceError, Some(line), "node_x86_64_with requires literal cores in MVP"));
            },
        };
        let memory_mib = match literal_u128(&args[1]) {
            Some(x) => x,
            None => {
                return Err(Diagnostic::error(DiagnosticKind::DistributedResourceError, Some(line), "node_x86_64_with requires literal memory_mib in MVP"));
            },
        };
        if cores == 0 {
            return Err(Diagnostic::error(DiagnosticKind::DistributedResourceError, Some(line), "node resource cores must be greater than zero"));
        }
        if memory_mib == 0 {
            return Err(Diagnostic::error(DiagnosticKind::DistributedResourceError, Some(line), "node resource memory_mib must be greater than zero"));
        }
        Ok(Passport::node_with_resources(amb, NodeArch::X86_64, Some(cores), Some(memory_mib)))
    }

    pub(crate) fn b_node_arm_with(&self, name: &str, args: &Vec<Expr>, amb: &str, line: usize) -> (r: Result<Passport, Diagnostic>)
        ensures
            passport_result(r) == b_node_arm_with_spec(self@.env, name@, args_model(args@), amb@, line),
    {
        proof {
            args_model_lemma(args@);
            lemma_args_size(args_model(args@));
        }
        if args.len() != 2 {
            let mut msg = String::new();
            msg.append(name);
            msg.append(" expects cores and memory_mib");
            return Err(Diagnostic::error(DiagnosticKind::ParseError, Some(line), msg.as_str()));
        }
        let cores = match literal_u128(&args[0]) {
            Some(x) => x,
            None => {
                return Err(Diagnostic::error(DiagnosticKind::DistributedResourceError, Some(line), "node_aarch64_with requires literal cores in MVP"));
            },
        };
        let memory_mib = match literal_u128(&args[1]) {
            Some(x) => x,
            None => {
                return Err(Diagnostic::error(DiagnosticKind::DistributedResourceError, Some(line), "node_aarch64_with requires literal memory_mib in MVP"));
            },
        };
        if cores == 0 {
            return Err(Diagnostic::error(DiagnosticKind::DistributedResourceError, Some(line), "node resource cores must be greater than zero"));
        }
        if memory_mib == 0 {
            return Err(Diagnostic::error(DiagnosticKind::DistributedResourceError, Some(line), "node resource memory_mib must be greater than zero"));
        }
        Ok(Passport::node_with_resources(amb, NodeArch::Aarch64, Some(cores), Some(memory_mib)))
    }

    pub(crate) fn b_gpu_cuda(&self, name: &str, args: &Vec<Expr>, amb: &str, line: usize) -> (r: Result<Passport, Diagnostic>)
        ensures
            passport_result(r) == b_gpu_cuda_spec(self@.env, name@, args_model(args@), amb@, line),
    {
        proof {
            args_model_lemma(args@);
            lemma_args_size(args_model(args@));
        }
        if args.len() != 0 {
            let mut msg = String::new();
            msg.append(name);
            msg.append(" expects no arguments");
            return Err(Diagnostic::error(DiagnosticKind::ParseError, Some(line), msg.as_str()));
        }
        Ok(Passport::gpu_device_with(amb, GpuBackend::Cuda, Some(8192)))
    }

    pub(crate) fn b_gpu_rocm(&self, name: &str, args: &Vec<Expr>, amb: &str, line: usize) -> (r: Result<Passport, Diagnostic>)
        ensures
            passport_result(r) == b_gpu_rocm_spec(self@.env, name@, args_model(args@), amb@, line),
    {
        proof {
            args_model_lemma(args@);
            lemma_args_size(args_model(args@));
        }
        if args.len() != 0 {
            let mut msg = String::new();
            msg.append(name);
            msg.append(" expects no arguments");
            return Err(Diagnostic::error(DiagnosticKind::ParseError, Some(line), msg.as_str()));
        }
        Ok(Passport::gpu_device_with(amb, GpuBackend::Rocm, Some(8192)))
    }

    pub(crate) fn b_gpu_cuda_with(&self, name: &str, args: &Vec<Expr>, amb: &str, line: usize) -> (r: Result<Passport, Diagnostic>)
        ensures
            passport_result(r) == b_gpu_cuda_with_spec(self@.env, name@, args_model(args@), amb@, line),
    {
        proof {
            args_model_lemma(args@);
            lemma_args_size(args_model(args@));
        }
        if args.len() != 1 {
            let mut msg = String::new();
            msg.append(name);
            msg.append(" expects memory_mib");
            return Err(Diagnostic::error(DiagnosticKind::ParseError, Some(line), msg.as_str()));
        }
        let memory_mib = match literal_u128(&args[0]) {
            Some(x) => x,
            None => {
                return Err(Diagnostic::error(DiagnosticKind::DistributedResourceError, Some(line), "gpu_cuda_with requires literal memory_mib in MVP"));
            },
        };
        if memory_mib == 0 {
            return Err(Diagnostic::error(DiagnosticKind::DistributedResourceError, Some(line), "node resource gpu_memory_mib must be greater than zero"));
        }
        Ok(Passport::gpu_device_with(amb, GpuBackend::Cuda, Some(memory_mib)))
    }

    pub(crate) fn b_gpu_rocm_with(&self, name: &str, args: &Vec<Expr>, amb: &str, line: usize) -> (r: Result<Passport, Diagnostic>)
        ensures
            passport_result(r) == b_gpu_rocm_with_spec(self@.env, name@, args_model(args@), amb@, line),
    {
        proof {
            args_model_lemma(args@);
            lemma_args_size(args_model(args@));
        }
        if args.len() != 1 {
            let mut msg = String::new();
            msg.append(name);
            msg.append(" expects memory_mib");
            return Err(Diagnostic::error(DiagnosticKind::ParseError, Some(line), msg.as_str()));
        }
        let memory_mib = match literal_u128(&args[0]) {
            Some(x) => x,
            None => {
                return Err(Diagnostic::error(DiagnosticKind::DistributedResourceError, Some(line), "gpu_rocm_with requires literal memory_mib in MVP"));
            },
        };
        if memory_mib == 0 {
            return Err(Diagnostic::error(DiagnosticKind::DistributedResourceError, Some(line), "node resource gpu_memory_mib must be greater than zero"));
        }
        Ok(Passport::gpu_device_with(amb, GpuBackend::Rocm, Some(memory_mib)))
    }

    pub(crate) fn b_gpu_pool(&self, name: &str, args: &Vec<Expr>, amb: &str, line: usize) -> (r: Result<Passport, Diagnostic>)
        ensures
            passport_result(r) == b_gpu_pool_spec(self@.env, name@, args_model(args@), amb@, line),
        decreases 2 * args_size(args_model(args@)) + 1, args@.len() + 1,
    {
        proof {
            args_model_lemma(args@);
            lemma_args_size(args_model(args@));
        }
        if args.len() == 0 {
            let mut msg = String::new();
            msg.append(name);
            msg.append(" expects at least one GpuDevice argument");
            return Err(Diagnostic::error(DiagnosticKind::ParseError, Some(line), msg.as_str()));
        }
        let devices = match self.gpu_devices(args, amb, line) {
            Ok(x) => x,
            Err(d) => return Err(d),
        };
        Ok(Passport::gpu_pool(amb, devices.as_slice()))
    }

    pub(crate) fn b_virtual_pool(&self, name: &str, args: &Vec<Expr>, amb: &str, line: usize) -> (r: Result<Passport, Diagnostic>)
        ensures
            passport_result(r) == b_virtual_pool_spec(self@.env, name@, args_model(args@), amb@, line),
        decreases 2 * args_size(args_model(args@)) + 1, args@.len() + 1,
    {
        proof {
            args_model_lemma(args@);
            lemma_args_size(args_model(args@));
        }
        if args.len() == 0 {
            let mut msg = String::new();
            msg.append(name);
            msg.append(" expects at least one Node argument");
            return Err(Diagnostic::error(DiagnosticKind::ParseError, Some(line), msg.as_str()));
        }
        let nodes = match self.pool_nodes(args, amb, line) {
            Ok(x) => x,
            Err(d) => return Err(d),
        };
        Ok(Passport::virtual_cluster(amb, nodes.as_slice()))
    }

    pub(crate) fn b_distributed_gpu_memory(&self, name: &str, args: &Vec<Expr>, amb: &str, line: usize) -> (r: Result<Passport, Diagnostic>)
        ensures
            passport_result(r) == b_distributed_gpu_memory_spec(self@.env, name@, args_model(args@), amb@, line),
        decreases 2 * args_size(args_model(args@)) + 1, args@.len() + 1,
    {
        proof {
            args_model_lemma(args@);
            lemma_args_size(args_model(args@));
        }
        if args.len() != 2 {
            let mut msg = String::new();
            msg.append(name);
            msg.append(" expects gpu_pool and memory_mib");
            return Err(Diagnostic::error(DiagnosticKind::ParseError, Some(line), msg.as_str()));
        }
        let pool = match self.infer_expr(&args[0], amb) {
            Ok(x) => x,
            Err(d) => return Err(d),
        };
        match require_capability(&pool, Capability::CanAllocateGpuMemory, line, "distributed_gpu_memory requires a GpuPool with can_allocate_gpu_memory") {
            Ok(()) => {},
            Err(d) => return Err(d),
        }
        if !matches!(pool.ty, TypeKind::GpuPool) {
            let mut help = String::new();
            help.append("pool passport: ");
            help.append(pool.to_text().as_str());
            return Err(error_help(DiagnosticKind::DistributedResourceError, line, "distributed_gpu_memory expects a GpuPool as its first argument", help.as_str()));
        }
        let requested_mib = match literal_u128(&args[1]) {
            Some(x) => x,
            None => {
                return Err(Diagnostic::error(DiagnosticKind::DistributedResourceError, Some(line), "distributed_gpu_memory requires literal memory_mib in MVP"));
            },
        };
        if requested_mib == 0 {
            return Err(Diagnostic::error(DiagnosticKind::DistributedResourceError, Some(line), "node resource gpu_memory_mib must be greater than zero"));
        }
        match pool.history.total_gpu_memory_mib() {
            Some(total) => {
                if requested_mib > total {
                    let mut msg = String::from_str("distributed_gpu_memory request ");
                    msg.append(u128_text(requested_mib).as_str());
                    msg.append(" MiB exceeds GpuPool memory ");
                    msg.append(u128_text(total).as_str());
                    msg.append(" MiB");
                    return Err(error_help(DiagnosticKind::DistributedResourceError, line, msg.as_str(), "request a smaller GPU region or add more GPU memory-capable devices to the pool"));
                }
            },
            None => {},
        }
        Ok(Passport::distributed_gpu_memory_region(amb, &pool, requested_mib))
    }

    pub(crate) fn b_gpu_memory_mib(&self, name: &str, args: &Vec<Expr>, amb: &str, line: usize) -> (r: Result<Passport, Diagnostic>)
        ensures
            passport_result(r) == b_gpu_memory_mib_spec(self@.env, name@, args_model(args@), amb@, line),
        decreases 2 * args_size(args_model(args@)) + 1, args@.len() + 1,
    {
        proof {
            args_model_lemma(args@);
            lemma_args_size(args_model(args@));
        }
        if args.len() != 1 {
            let mut msg = String::new();
            msg.append(name);
            msg.append(" expects one DistributedGpuMemory argument");
            return Err(Diagnostic::error(DiagnosticKind::ParseError, Some(line), msg.as_str()));
        }
        let region = match self.infer_expr(&args[0], amb) {
            Ok(x) => x,
            Err(d) => return Err(d),
        };
        match require_capability(&region, Capability::CanUseGpuMemory, line, "gpu_memory_mib requires can_use_gpu_memory") {
            Ok(()) => {},
            Err(d) => return Err(d),
        }
        if !matches!(region.ty, TypeKind::DistributedGpuMemory { .. }) {
            let mut help = String::new();
            help.append("value passport: ");
            help.append(region.to_text().as_str());
            return Err(error_help(DiagnosticKind::DistributedResourceError, line, "gpu_memory_mib expects a DistributedGpuMemory value", help.as_str()));
        }
        Ok(Passport::gpu_memory_resource_nat(amb, &region, "gpu_memory:region_mib"))
    }

    pub(crate) fn b_copy_to_gpu(&self, name: &str, args: &Vec<Expr>, amb: &str, line: usize) -> (r: Result<Passport, Diagnostic>)
        ensures
            passport_result(r) == b_copy_to_gpu_spec(self@.env, name@, args_model(args@), amb@, line),
        decreases 2 * args_size(args_model(args@)) + 1, args@.len() + 1,
    {
        proof {
            args_model_lemma(args@);
            lemma_args_size(args_model(args@));
        }
        if args.len() != 2 {
            let mut msg = String::new();
            msg.append(name);
            msg.append(" expects source value and DistributedGpuMemory region");
            return Err(Diagnostic::error(DiagnosticKind::ParseError, Some(line), msg.as_str()));
        }
        let source = match self.infer_expr(&args[0], amb) {
            Ok(x) => x,
            Err(d) => return Err(d),
        };
        match require_capability(&source, Capability::CanSerializeForMigration, line, "copy_to_gpu source requires can_serialize_for_migration") {
            Ok(()) => {},
            Err(d) => return Err(d),
        }
        let region = match self.infer_expr(&args[1], amb) {
            Ok(x) => x,
            Err(d) => return Err(d),
        };
        match require_capability(&region, Capability::CanUseGpuMemory, line, "copy_to_gpu requires can_use_gpu_memory on the target region") {
            Ok(()) => {},
            Err(d) => return Err(d),
        }
        match require_capability(&region, Capability::CanCopyCpuToGpu, line, "copy_to_gpu target region requires can_copy_cpu_to_gpu") {
            Ok(()) => {},
            Err(d) => return Err(d),
        }
        if !matches!(region.ty, TypeKind::DistributedGpuMemory { .. }) {
            let mut help = String::new();
            help.append("region passport: ");
            help.append(region.to_text().as_str());
            return Err(error_help(DiagnosticKind::DistributedResourceError, line, "copy_to_gpu expects a DistributedGpuMemory region as second argument", help.as_str()));
        }
        Ok(Passport::gpu_value(amb, &source, &region))
    }

    pub(crate) fn b_copy_from_gpu(&self, name: &str, args: &Vec<Expr>, amb: &str, line: usize) -> (r: Result<Passport, Diagnostic>)
        ensures
            passport_result(r) == b_copy_from_gpu_spec(self@.env, name@, args_model(args@), amb@, line),
        decreases 2 * args_size(args_model(args@)) + 1, args@.len() + 1,
    {
        proof {
            args_model_lemma(args@);
            lemma_args_size(args_model(args@));
        }
        if args.len() != 1 {
            let mut msg = String::new();
            msg.append(name);
            msg.append(" expects one GpuValue");
            return Err(Diagnostic::error(DiagnosticKind::ParseError, Some(line), msg.as_str()));
        }
        let value = match self.infer_expr(&args[0], amb) {
            Ok(x) => x,
            Err(d) => return Err(d),
        };
        match require_capability(&value, Capability::CanCopyGpuToCpu, line, "copy_from_gpu requires can_copy_gpu_to_cpu") {
            Ok(()) => {},
            Err(d) => return Err(d),
        }
        if !matches!(value.ty, TypeKind::GpuValue { .. }) {
            let mut help = String::new();
            help.append("value passport: ");
            help.append(value.to_text().as_str());
            return Err(error_help(DiagnosticKind::DistributedResourceError, line, "copy_from_gpu expects a GpuValue<T>", help.as_str()));
        }
        Ok(Passport::copied_from_gpu(amb, &value))
    }

    pub(crate) fn b_compile_gpu_kernel(&self, name: &str, args: &Vec<Expr>, amb: &str, line: usize) -> (r: Result<Passport, Diagnostic>)
        ensures
            passport_result(r) == b_compile_gpu_kernel_spec(self@.env, name@, args_model(args@), amb@, line),
        decreases 2 * args_size(args_model(args@)) + 1, args@.len() + 1,
    {
        proof {
            args_model_lemma(args@);
            lemma_args_size(args_model(args@));
        }
        if args.len() != 1 {
            let mut msg = String::new();
            msg.append(name);
            msg.append(" expects one compilable value");
            return Err(Diagnostic::error(DiagnosticKind::ParseError, Some(line), msg.as_str()));
        }
        let source = match self.infer_expr(&args[0], amb) {
            Ok(x) => x,
            Err(d) => return Err(d),
        };
        match require_capability(&source, Capability::CanCompileGpuKernel, line, "compile_gpu_kernel requires can_compile_gpu_kernel") {
            Ok(()) => {},
            Err(d) => return Err(d),
        }
        match require_capability(&source, Capability::CanSerializeForMigration, line, "compile_gpu_kernel requires can_serialize_for_migration") {
            Ok(()) => {},
            Err(d) => return Err(d),
        }
        Ok(Passport::gpu_kernel(amb, &source))
    }

    pub(crate) fn b_launch_kernel(&self, name: &str, args: &Vec<Expr>, amb: &str, line: usize) -> (r: Result<Passport, Diagnostic>)
        ensures
            passport_result(r) == b_launch_kernel_spec(self@.env, name@, args_model(args@), amb@, line),
        decreases 2 * args_size(args_model(args@)) + 1, args@.len() + 1,
    {
        proof {
            args_model_lemma(args@);
            lemma_args_size(args_model(args@));
        }
        if args.len() != 2 {
            let mut msg = String::new();
            msg.append(name);
            msg.append(" expects DistributedGpuMemory and GpuKernel");
            return Err(Diagnostic::error(DiagnosticKind::ParseError, Some(line), msg.as_str()));
        }
        let region = match self.infer_expr(&args[0], amb) {
            Ok(x) => x,
            Err(d) => return Err(d),
        };
        match require_capability(&region, Capability::CanUseGpuMemory, line, "launch_kernel requires can_use_gpu_memory on the target region") {
            Ok(()) => {},
            Err(d) => return Err(d),
        }
        match require_capability(&region, Capability::CanLaunchGpuKernel, line, "launch_kernel target region requires can_launch_gpu_kernel") {
            Ok(()) => {},
            Err(d) => return Err(d),
        }
        if !matches!(region.ty, TypeKind::DistributedGpuMemory { .. }) {
            let mut help = String::new();
            help.append("region passport: ");
            help.append(region.to_text().as_str());
            return Err(error_help(DiagnosticKind::DistributedResourceError, line, "launch_kernel expects a DistributedGpuMemory region as first argument", help.as_str()));
        }
        let kernel = match self.infer_expr(&args[1], amb) {
            Ok(x) => x,
            Err(d) => return Err(d),
        };
        match require_capability(&kernel, Capability::CanLaunchGpuKernel, line, "launch_kernel requires a GpuKernel with can_launch_gpu_kernel") {
            Ok(()) => {},
            Err(d) => return Err(d),
        }
        if !matches!(kernel.ty, TypeKind::GpuKernel { .. }) {
            let mut help = String::new();
            help.append("kernel passport: ");
            help.append(kernel.to_text().as_str());
            return Err(error_help(DiagnosticKind::DistributedResourceError, line, "launch_kernel expects a GpuKernel<T> as second argument", help.as_str()));
        }
        Ok(Passport::launched_gpu_kernel(amb, &region, &kernel))
    }

    pub(crate) fn b_pool_cores(&self, name: &str, args: &Vec<Expr>, amb: &str, line: usize) -> (r: Result<Passport, Diagnostic>)
        ensures
            passport_result(r) == b_pool_cores_spec(self@.env, name@, args_model(args@), amb@, line),
        decreases 2 * args_size(args_model(args@)) + 1, args@.len() + 1,
    {
        proof {
            args_model_lemma(args@);
            lemma_args_size(args_model(args@));
        }
        if args.len() != 1 {
            let mut msg = String::new();
            msg.append(name);
            msg.append(" expects one VirtualCluster argument");
            return Err(Diagnostic::error(DiagnosticKind::ParseError, Some(line), msg.as_str()));
        }
        let pool = match self.infer_expr(&args[0], amb) {
            Ok(x) => x,
            Err(d) => return Err(d),
        };
        match require_capability(&pool, Capability::CanVirtualizeCores, line, "pool_cores requires can_virtualize_cores") {
            Ok(()) => {},
            Err(d) => return Err(d),
        }
        if !matches!(pool.ty, TypeKind::VirtualCluster) {
            let mut help = String::new();
            help.append("value passport: ");
            help.append(pool.to_text().as_str());
            return Err(error_help(DiagnosticKind::DistributedResourceError, line, "pool_cores expects a VirtualCluster value", help.as_str()));
        }
        Ok(Passport::cluster_resource_nat(amb, &pool, "cluster:pool_cores"))
    }

    pub(crate) fn b_pool_memory_mib(&self, name: &str, args: &Vec<Expr>, amb: &str, line: usize) -> (r: Result<Passport, Diagnostic>)
        ensures
            passport_result(r) == b_pool_memory_mib_spec(self@.env, name@, args_model(args@), amb@, line),
        decreases 2 * args_size(args_model(args@)) + 1, args@.len() + 1,
    {
        proof {
            args_model_lemma(args@);
            lemma_args_size(args_model(args@));
        }
        if args.len() != 1 {
            let mut msg = String::new();
            msg.append(name);
            msg.append(" expects one VirtualCluster argument");
            return Err(Diagnostic::error(DiagnosticKind::ParseError, Some(line), msg.as_str()));
        }
        let pool = match self.infer_expr(&args[0], amb) {
            Ok(x) => x,
            Err(d) => return Err(d),
        };
        match require_capability(&pool, Capability::CanVirtualizeMemory, line, "pool_memory_mib requires can_virtualize_memory") {
            Ok(()) => {},
            Err(d) => return Err(d),
        }
        if !matches!(pool.ty, TypeKind::VirtualCluster) {
            let mut help = String::new();
            help.append("value passport: ");
            help.append(pool.to_text().as_str());
            return Err(error_help(DiagnosticKind::DistributedResourceError, line, "pool_memory_mib expects a VirtualCluster value", help.as_str()));
        }
        Ok(Passport::cluster_resource_nat(amb, &pool, "cluster:pool_memory_mib"))
    }

    pub(crate) fn b_distributed_memory(&self, name: &str, args: &Vec<Expr>, amb: &str, line: usize) -> (r: Result<Passport, Diagnostic>)
        ensures
            passport_result(r) == b_distributed_memory_spec(self@.env, name@, args_model(args@), amb@, line),
        decreases 2 * args_size(args_model(args@)) + 1, args@.len() + 1,
    {
        proof {
            args_model_lemma(args@);
            lemma_args_size(args_model(args@));
        }
        if args.len() != 2 {
            let mut msg = String::new();
            msg.append(name);
            msg.append(" expects pool and memory_mib");
            return Err(Diagnostic::error(DiagnosticKind::ParseError, Some(line), msg.as_str()));
        }
        let pool = match self.infer_expr(&args[0], amb) {
            Ok(x) => x,
            Err(d) => return Err(d),
        };
        match require_capability(&pool, Capability::CanAllocateDistributedMemory, line, "distributed_memory requires a VirtualCluster with can_allocate_distributed_memory") {
            Ok(()) => {},
            Err(d) => return Err(d),
        }
        if !matches!(pool.ty, TypeKind::VirtualCluster) {
            let mut help = String::new();
            help.append("pool passport: ");
            help.append(pool.to_text().as_str());
            return Err(error_help(DiagnosticKind::DistributedResourceError, line, "distributed_memory expects a VirtualCluster as its first argument", help.as_str()));
        }
        let requested_mib = match literal_u128(&args[1]) {
            Some(x) => x,
            None => {
                return Err(Diagnostic::error(DiagnosticKind::DistributedResourceError, Some(line), "distributed_memory requires literal memory_mib in MVP"));
            },
        };
        if requested_mib == 0 {
            return Err(Diagnostic::error(DiagnosticKind::DistributedResourceError, Some(line), "node resource memory_mib must be greater than zero"));
        }
        match pool.history.total_node_memory_mib() {
            Some(total) => {
                if requested_mib > total {
                    let mut msg = String::from_str("distributed_memory request ");
                    msg.append(u128_text(requested_mib).as_str());
                    msg.append(" MiB exceeds VirtualCluster memory ");
                    msg.append(u128_text(total).as_str());
                    msg.append(" MiB");
                    return Err(error_help(DiagnosticKind::DistributedResourceError, line, msg.as_str(), "request a smaller region or add more memory-capable nodes to the pool"));
                }
            },
            None => {},
        }
        Ok(Passport::distributed_memory_region(amb, &pool, requested_mib))
    }

    pub(crate) fn b_memory_region_mib(&self, name: &str, args: &Vec<Expr>, amb: &str, line: usize) -> (r: Result<Passport, Diagnostic>)
        ensures
            passport_result(r) == b_memory_region_mib_spec(self@.env, name@, args_model(args@), amb@, line),
        decreases 2 * args_size(args_model(args@)) + 1, args@.len() + 1,
    {
        proof {
            args_model_lemma(args@);
            lemma_args_size(args_model(args@));
        }
        if args.len() != 1 {
            let mut msg = String::new();
            msg.append(name);
            msg.append(" expects one DistributedMemory argument");
            return Err(Diagnostic::error(DiagnosticKind::ParseError, Some(line), msg.as_str()));
        }
        let region = match self.infer_expr(&args[0], amb) {
            Ok(x) => x,
            Err(d) => return Err(d),
        };
        match require_capability(&region, Capability::CanUseDistributedMemory, line, "memory_region_mib requires can_use_distributed_memory") {
            Ok(()) => {},
            Err(d) => return Err(d),
        }
        if !matches!(region.ty, TypeKind::DistributedMemory { .. }) {
            let mut help = String::new();
            help.append("value passport: ");
            help.append(region.to_text().as_str());
            return Err(error_help(DiagnosticKind::DistributedResourceError, line, "memory_region_mib expects a DistributedMemory value", help.as_str()));
        }
        Ok(Passport::memory_region_resource_nat(amb, &region, "memory:region_mib"))
    }

    pub(crate) fn b_checkpoint_memory(&self, name: &str, args: &Vec<Expr>, amb: &str, line: usize) -> (r: Result<Passport, Diagnostic>)
        ensures
            passport_result(r) == b_checkpoint_memory_spec(self@.env, name@, args_model(args@), amb@, line),
        decreases 2 * args_size(args_model(args@)) + 1, args@.len() + 1,
    {
        proof {
            args_model_lemma(args@);
            lemma_args_size(args_model(args@));
        }
        if args.len() != 1 {
            let mut msg = String::new();
            msg.append(name);
            msg.append(" expects one DistributedMemory argument");
            return Err(Diagnostic::error(DiagnosticKind::ParseError, Some(line), msg.as_str()));
        }
        let region = match self.infer_expr(&args[0], amb) {
            Ok(x) => x,
            Err(d) => return Err(d),
        };
        match require_capability(&region, Capability::CanCheckpointMemory, line, "checkpoint_memory requires can_checkpoint_memory") {
            Ok(()) => {},
            Err(d) => return Err(d),
        }
        if !matches!(region.ty, TypeKind::DistributedMemory { .. }) {
            let mut help = String::new();
            help.append("value passport: ");
            help.append(region.to_text().as_str());
            return Err(error_help(DiagnosticKind::DistributedResourceError, line, "checkpoint_memory expects a DistributedMemory value", help.as_str()));
        }
        Ok(Passport::memory_checkpoint(amb, &region))
    }

    pub(crate) fn b_restore_checkpoint(&self, name: &str, args: &Vec<Expr>, amb: &str, line: usize) -> (r: Result<Passport, Diagnostic>)
        ensures
            passport_result(r) == b_restore_checkpoint_spec(self@.env, name@, args_model(args@), amb@, line),
        decreases 2 * args_size(args_model(args@)) + 1, args@.len() + 1,
    {
        proof {
            args_model_lemma(args@);
            lemma_args_size(args_model(args@));
        }
        if args.len() != 1 {
            let mut msg = String::new();
            msg.append(name);
            msg.append(" expects one MemoryCheckpoint argument");
            return Err(Diagnostic::error(DiagnosticKind::ParseError, Some(line), msg.as_str()));
        }
        let checkpoint = match self.infer_expr(&args[0], amb) {
            Ok(x) => x,
            Err(d) => return Err(d),
        };
        match require_capability(&checkpoint, Capability::CanRestoreCheckpoint, line, "restore_checkpoint requires can_restore_checkpoint") {
            Ok(()) => {},
            Err(d) => return Err(d),
        }
        if !matches!(checkpoint.ty, TypeKind::MemoryCheckpoint { .. }) {
            let mut help = String::new();
            help.append("value passport: ");
            help.append(checkpoint.to_text().as_str());
            return Err(error_help(DiagnosticKind::DistributedResourceError, line, "restore_checkpoint expects a MemoryCheckpoint value", help.as_str()));
        }
        Ok(Passport::restored_memory_region(amb, &checkpoint))
    }

    pub(crate) fn b_compile_portable(&self, name: &str, args: &Vec<Expr>, amb: &str, line: usize) -> (r: Result<Passport, Diagnostic>)
        ensures
            passport_result(r) == b_compile_portable_spec(self@.env, name@, args_model(args@), amb@, line),
        decreases 2 * args_size(args_model(args@)) + 1, args@.len() + 1,
    {
        proof {
            args_model_lemma(args@);
            lemma_args_size(args_model(args@));
        }
        if args.len() != 1 {
            let mut msg = String::new();
            msg.append(name);
            msg.append(" expects one serializable value");
            return Err(Diagnostic::error(DiagnosticKind::ParseError, Some(line), msg.as_str()));
        }
        let source = match self.infer_expr(&args[0], amb) {
            Ok(x) => x,
            Err(d) => return Err(d),
        };
        match require_capability(&source, Capability::CanCompilePortableCode, line, "compile_portable requires can_compile_portable_code") {
            Ok(()) => {},
            Err(d) => return Err(d),
        }
        match require_capability(&source, Capability::CanSerializeForMigration, line, "compile_portable requires can_serialize_for_migration") {
            Ok(()) => {},
            Err(d) => return Err(d),
        }
        Ok(Passport::portable_code(amb, &source))
    }

    pub(crate) fn b_deploy_portable(&self, name: &str, args: &Vec<Expr>, amb: &str, line: usize) -> (r: Result<Passport, Diagnostic>)
        ensures
            passport_result(r) == b_deploy_portable_spec(self@.env, name@, args_model(args@), amb@, line),
        decreases 2 * args_size(args_model(args@)) + 1, args@.len() + 1,
    {
        proof {
            args_model_lemma(args@);
            lemma_args_size(args_model(args@));
        }
        if args.len() != 2 {
            let mut msg = String::new();
            msg.append(name);
            msg.append(" expects target node and PortableCode");
            return Err(Diagnostic::error(DiagnosticKind::ParseError, Some(line), msg.as_str()));
        }
        let target = match self.infer_expr(&args[0], amb) {
            Ok(x) => x,
            Err(d) => return Err(d),
        };
        match require_capability(&target, Capability::CanAcceptMigration, line, "deploy_portable target requires can_accept_migration") {
            Ok(()) => {},
            Err(d) => return Err(d),
        }
        let target_arch = match &target.ty {
            TypeKind::Node { arch } => *arch,
            _ => {
                let mut help = String::new();
                help.append("target passport: ");
                help.append(target.to_text().as_str());
                return Err(error_help(DiagnosticKind::MigrationBridgeError, line, "deploy_portable target must be Node<x86_64> or Node<aarch64>", help.as_str()));
            },
        };
        let code = match self.infer_expr(&args[1], amb) {
            Ok(x) => x,
            Err(d) => return Err(d),
        };
        match require_capability(&code, Capability::CanDeployPortableCode, line, "deploy_portable requires can_deploy_portable_code") {
            Ok(()) => {},
            Err(d) => return Err(d),
        }
        if !matches!(code.ty, TypeKind::PortableCode { .. }) {
            let mut help = String::new();
            help.append("code passport: ");
            help.append(code.to_text().as_str());
            return Err(error_help(DiagnosticKind::DistributedResourceError, line, "deploy_portable expects a PortableCode<T> value", help.as_str()));
        }
        let mut ev = String::from_str("portable:deploy:to:");
        ev.append(target_arch.display_str());
        Ok(Passport::deployed_portable_code(amb, &code, &target, target_arch, ev.as_str()))
    }

    pub(crate) fn b_deploy_on(&self, name: &str, args: &Vec<Expr>, amb: &str, line: usize) -> (r: Result<Passport, Diagnostic>)
        ensures
            passport_result(r) == b_deploy_on_spec(self@.env, name@, args_model(args@), amb@, line),
        decreases 2 * args_size(args_model(args@)) + 1, args@.len() + 1,
    {
        proof {
            args_model_lemma(args@);
            lemma_args_size(args_model(args@));
        }
        if args.len() != 3 {
            let mut msg = String::new();
            msg.append(name);
            msg.append(" expects pool, target node and PortableCode");
            return Err(Diagnostic::error(DiagnosticKind::ParseError, Some(line), msg.as_str()));
        }
        let pool = match self.infer_expr(&args[0], amb) {
            Ok(x) => x,
            Err(d) => return Err(d),
        };
        match require_capability(&pool, Capability::CanScheduleRuntime, line, "deploy_on requires a VirtualCluster with can_schedule_runtime") {
            Ok(()) => {},
            Err(d) => return Err(d),
        }
        if !matches!(pool.ty, TypeKind::VirtualCluster) {
            let mut help = String::new();
            help.append("pool passport: ");
            help.append(pool.to_text().as_str());
            return Err(error_help(DiagnosticKind::DistributedResourceError, line, "deploy_on expects a VirtualCluster as its first argument", help.as_str()));
        }
        let target = match self.infer_expr(&args[1], amb) {
            Ok(x) => x,
            Err(d) => return Err(d),
        };
        match require_capability(&target, Capability::CanAcceptMigration, line, "deploy_on target requires can_accept_migration") {
            Ok(()) => {},
            Err(d) => return Err(d),
        }
        let target_arch = match &target.ty {
            TypeKind::Node { arch } => *arch,
            _ => {
                let mut help = String::new();
                help.append("target passport: ");
                help.append(target.to_text().as_str());
                return Err(error_help(DiagnosticKind::MigrationBridgeError, line, "deploy_on target must be Node<x86_64> or Node<aarch64>", help.as_str()));
            },
        };
        let code = match self.infer_expr(&args[2], amb) {
            Ok(x) => x,
            Err(d) => return Err(d),
        };
        match require_capability(&code, Capability::CanDeployPortableCode, line, "deploy_on requires can_deploy_portable_code") {
            Ok(()) => {},
            Err(d) => return Err(d),
        }
        if !matches!(code.ty, TypeKind::PortableCode { .. }) {
            let mut help = String::new();
            help.append("code passport: ");
            help.append(code.to_text().as_str());
            return Err(error_help(DiagnosticKind::DistributedResourceError, line, "deploy_on expects PortableCode<T> as its third argument", help.as_str()));
        }
        let mut ev = String::from_str("portable:deploy_on:to:");
        ev.append(target_arch.display_str());
        Ok(deployed_on_pool(amb, &pool, &code, &target, target_arch, ev.as_str()))
    }

    pub(crate) fn b_materialize_remote(&self, name: &str, args: &Vec<Expr>, amb: &str, line: usize) -> (r: Result<Passport, Diagnostic>)
        ensures
            passport_result(r) == b_materialize_remote_spec(self@.env, name@, args_model(args@), amb@, line),
        decreases 2 * args_size(args_model(args@)) + 1, args@.len() + 1,
    {
        proof {
            args_model_lemma(args@);
            lemma_args_size(args_model(args@));
        }
        if args.len() != 1 {
            let mut msg = String::new();
            msg.append(name);
            msg.append(" expects one Remote value");
            return Err(Diagnostic::error(DiagnosticKind::ParseError, Some(line), msg.as_str()));
        }
        let (source_theory, remote) = match &args[0].kind {
            ExprKind::QualifiedIdent { theory, name: n } => match self.lookup_qualified(theory.as_str(), n.as_str(), theory.as_str(), line) {
                Ok(p) => (theory.clone(), p),
                Err(d) => return Err(d),
            },
            _ => match self.infer_expr(&args[0], amb) {
                Ok(p) => (String::from_str(amb), p),
                Err(d) => return Err(d),
            },
        };
        if !str_eq(source_theory.as_str(), amb) {
            let bname = match self.bridge_name(source_theory.as_str(), amb, BridgeKind::Materialize) {
                Some(x) => x,
                None => {
                    let mut msg = String::new();
                    msg.append("no materialize bridge from theory ");
                    msg.append(source_theory.as_str());
                    msg.append(" to ");
                    msg.append(amb);
                    msg.append(" in scope");
                    return Err(error_help(DiagnosticKind::TheoryBridgeError, line, msg.as_str(), "declare or import: bridge Name : Source -> Target { kind = materialize }"));
                },
            };
            match require_capability(&remote, Capability::CanMaterializeRemote, line, "materialize_remote requires can_materialize_remote") {
                Ok(()) => {},
                Err(d) => return Err(d),
            }
            if !matches!(remote.ty, TypeKind::Remote { .. }) {
                let mut help = String::new();
                help.append("value passport: ");
                help.append(remote.to_text().as_str());
                return Err(error_help(DiagnosticKind::DistributedResourceError, line, "materialize_remote expects a Remote<T@arch> value", help.as_str()));
            }
            Ok(Passport::materialized_remote(amb, &remote, bname.as_str()))
        } else {
            match require_capability(&remote, Capability::CanMaterializeRemote, line, "materialize_remote requires can_materialize_remote") {
                Ok(()) => {},
                Err(d) => return Err(d),
            }
            if !matches!(remote.ty, TypeKind::Remote { .. }) {
                let mut help = String::new();
                help.append("value passport: ");
                help.append(remote.to_text().as_str());
                return Err(error_help(DiagnosticKind::DistributedResourceError, line, "materialize_remote expects a Remote<T@arch> value", help.as_str()));
            }
            Ok(Passport::materialized_remote(amb, &remote, "local_materialize"))
        }
    }

    pub(crate) fn b_checkpoint_remote(&self, name: &str, args: &Vec<Expr>, amb: &str, line: usize) -> (r: Result<Passport, Diagnostic>)
        ensures
            passport_result(r) == b_checkpoint_remote_spec(self@.env, name@, args_model(args@), amb@, line),
        decreases 2 * args_size(args_model(args@)) + 1, args@.len() + 1,
    {
        proof {
            args_model_lemma(args@);
            lemma_args_size(args_model(args@));
        }
        if args.len() != 1 {
            let mut msg = String::new();
            msg.append(name);
            msg.append(" expects one Remote value");
            return Err(Diagnostic::error(DiagnosticKind::ParseError, Some(line), msg.as_str()));
        }
        let remote = match self.infer_expr(&args[0], amb) {
            Ok(x) => x,
            Err(d) => return Err(d),
        };
        match require_capability(&remote, Capability::CanCheckpointRemote, line, "checkpoint_remote requires can_checkpoint_remote") {
            Ok(()) => {},
            Err(d) => return Err(d),
        }
        if !matches!(remote.ty, TypeKind::Remote { .. }) {
            let mut help = String::new();
            help.append("value passport: ");
            help.append(remote.to_text().as_str());
            return Err(error_help(DiagnosticKind::DistributedResourceError, line, "checkpoint_remote expects a Remote<T@arch> value", help.as_str()));
        }
        Ok(Passport::remote_checkpoint(amb, &remote))
    }

    pub(crate) fn b_restore_remote(&self, name: &str, args: &Vec<Expr>, amb: &str, line: usize) -> (r: Result<Passport, Diagnostic>)
        ensures
            passport_result(r) == b_restore_remote_spec(self@.env, name@, args_model(args@), amb@, line),
        decreases 2 * args_size(args_model(args@)) + 1, args@.len() + 1,
    {
        proof {
            args_model_lemma(args@);
            lemma_args_size(args_model(args@));
        }
        if args.len() != 2 {
            let mut msg = String::new();
            msg.append(name);
            msg.append(" expects target node and RemoteCheckpoint");
            return Err(Diagnostic::error(DiagnosticKind::ParseError, Some(line), msg.as_str()));
        }
        let target = match self.infer_expr(&args[0], amb) {
            Ok(x) => x,
            Err(d) => return Err(d),
        };
        match require_capability(&target, Capability::CanAcceptMigration, line, "restore_remote target requires can_accept_migration") {
            Ok(()) => {},
            Err(d) => return Err(d),
        }
        let target_arch = match &target.ty {
            TypeKind::Node { arch } => *arch,
            _ => {
                let mut help = String::new();
                help.append("target passport: ");
                help.append(target.to_text().as_str());
                return Err(error_help(DiagnosticKind::MigrationBridgeError, line, "restore_remote target must be Node<x86_64> or Node<aarch64>", help.as_str()));
            },
        };
        let checkpoint = match self.infer_expr(&args[1], amb) {
            Ok(x) => x,
            Err(d) => return Err(d),
        };
        match require_capability(&checkpoint, Capability::CanRestoreRemoteCheckpoint, line, "restore_remote requires can_restore_remote_checkpoint") {
            Ok(()) => {},
            Err(d) => return Err(d),
        }
        if !matches!(checkpoint.ty, TypeKind::RemoteCheckpoint { .. }) {
            let mut help = String::new();
            help.append("checkpoint passport: ");
            help.append(checkpoint.to_text().as_str());
            return Err(error_help(DiagnosticKind::DistributedResourceError, line, "restore_remote expects a RemoteCheckpoint<T@arch> value", help.as_str()));
        }
        Ok(Passport::restored_remote(amb, &checkpoint, &target, target_arch))
    }

    pub(crate) fn b_live_migrate(&self, name: &str, args: &Vec<Expr>, amb: &str, line: usize) -> (r: Result<Passport, Diagnostic>)
        ensures
            passport_result(r) == b_live_migrate_spec(self@.env, name@, args_model(args@), amb@, line),
        decreases 2 * args_size(args_model(args@)) + 1, args@.len() + 1,
    {
        proof {
            args_model_lemma(args@);
            lemma_args_size(args_model(args@));
        }
        if args.len() != 2 {
            let mut msg = String::new();
            msg.append(name);
            msg.append(" expects target node and Remote value");
            return Err(Diagnostic::error(DiagnosticKind::ParseError, Some(line), msg.as_str()));
        }
        let target = match self.infer_expr(&args[0], amb) {
            Ok(x) => x,
            Err(d) => return Err(d),
        };
        match require_capability(&target, Capability::CanAcceptMigration, line, "live_migrate target requires can_accept_migration") {
            Ok(()) => {},
            Err(d) => return Err(d),
        }
        let target_arch = match &target.ty {
            TypeKind::Node { arch } => *arch,
            _ => {
                let mut help = String::new();
                help.append("target passport: ");
                help.append(target.to_text().as_str());
                return Err(error_help(DiagnosticKind::MigrationBridgeError, line, "live_migrate target must be Node<x86_64> or Node<aarch64>", help.as_str()));
            },
        };
        let remote = match self.infer_expr(&args[1], amb) {
            Ok(x) => x,
            Err(d) => return Err(d),
        };
        match require_capability(&remote, Capability::CanLiveMigrateRemote, line, "live_migrate requires can_live_migrate_remote") {
            Ok(()) => {},
            Err(d) => return Err(d),
        }
        if !matches!(remote.ty, TypeKind::Remote { .. }) {
            let mut help = String::new();
            help.append("remote passport: ");
            help.append(remote.to_text().as_str());
            return Err(error_help(DiagnosticKind::DistributedResourceError, line, "live_migrate expects a Remote<T@arch> value", help.as_str()));
        }
        Ok(Passport::live_migrated_remote(amb, &remote, &target, target_arch))
    }

    pub(crate) fn b_schedule(&self, name: &str, args: &Vec<Expr>, amb: &str, line: usize) -> (r: Result<Passport, Diagnostic>)
        ensures
            passport_result(r) == b_schedule_spec(self@.env, name@, args_model(args@), amb@, line),
        decreases 2 * args_size(args_model(args@)) + 1, args@.len() + 1,
    {
        proof {
            args_model_lemma(args@);
            lemma_args_size(args_model(args@));
        }
        if args.len() != 3 {
            let mut msg = String::new();
            msg.append(name);
            msg.append(" expects pool, target node and source value");
            return Err(Diagnostic::error(DiagnosticKind::ParseError, Some(line), msg.as_str()));
        }
        let pool = match self.infer_expr(&args[0], amb) {
            Ok(x) => x,
            Err(d) => return Err(d),
        };
        match require_capability(&pool, Capability::CanScheduleRuntime, line, "schedule_on requires a VirtualCluster with can_schedule_runtime") {
            Ok(()) => {},
            Err(d) => return Err(d),
        }
        if !matches!(pool.ty, TypeKind::VirtualCluster) {
            let mut help = String::new();
            help.append("pool passport: ");
            help.append(pool.to_text().as_str());
            return Err(error_help(DiagnosticKind::DistributedResourceError, line, "schedule_on expects a VirtualCluster as its first argument", help.as_str()));
        }
        let target = match self.infer_expr(&args[1], amb) {
            Ok(x) => x,
            Err(d) => return Err(d),
        };
        match require_capability(&target, Capability::CanAcceptMigration, line, "schedule_on target requires can_accept_migration") {
            Ok(()) => {},
            Err(d) => return Err(d),
        }
        let target_arch = match &target.ty {
            TypeKind::Node { arch } => *arch,
            _ => {
                let mut help = String::new();
                help.append("target passport: ");
                help.append(target.to_text().as_str());
                return Err(error_help(DiagnosticKind::MigrationBridgeError, line, "schedule_on target must be Node<x86_64> or Node<aarch64>", help.as_str()));
            },
        };
        let (source_theory, source_passport) = match &args[2].kind {
            ExprKind::QualifiedIdent { theory, name: n } => match self.lookup_qualified(theory.as_str(), n.as_str(), theory.as_str(), line) {
                Ok(p) => (theory.clone(), p),
                Err(d) => return Err(d),
            },
            _ => match self.infer_expr(&args[2], amb) {
                Ok(p) => (String::from_str(amb), p),
                Err(d) => return Err(d),
            },
        };
        if str_eq(source_theory.as_str(), amb) {
            match require_capability(&source_passport, Capability::CanSerializeForMigration, line, "schedule_on source requires can_serialize_for_migration") {
                Ok(()) => {},
                Err(d) => return Err(d),
            }
            Ok(source_passport.scheduled_to(amb, target_arch, "local_schedule", &pool, &target))
        } else {
            let bname = match self.bridge_name(source_theory.as_str(), amb, BridgeKind::Migration) {
                Some(x) => x,
                None => {
                    let mut msg = String::new();
                    msg.append("no migration bridge from theory ");
                    msg.append(source_theory.as_str());
                    msg.append(" to ");
                    msg.append(amb);
                    msg.append(" in scope for schedule_on");
                    return Err(error_help(DiagnosticKind::MigrationBridgeError, line, msg.as_str(), "declare or import: bridge Name : Source -> Target { kind = migration }"));
                },
            };
            match require_capability(&source_passport, Capability::CanSerializeForMigration, line, "schedule_on source requires can_serialize_for_migration") {
                Ok(()) => {},
                Err(d) => return Err(d),
            }
            Ok(source_passport.scheduled_to(amb, target_arch, bname.as_str(), &pool, &target))
        }
    }

    pub(crate) fn b_migrate(&self, name: &str, args: &Vec<Expr>, amb: &str, line: usize) -> (r: Result<Passport, Diagnostic>)
        ensures
            passport_result(r) == b_migrate_spec(self@.env, name@, args_model(args@), amb@, line),
        decreases 2 * args_size(args_model(args@)) + 1, args@.len() + 1,
    {
        proof {
            args_model_lemma(args@);
            lemma_args_size(args_model(args@));
        }
        if args.len() != 2 {
            return Err(Diagnostic::error(DiagnosticKind::ParseError, Some(line), "migrate expects target node and source value"));
        }
        let target = match self.infer_expr(&args[0], amb) {
            Ok(x) => x,
            Err(d) => return Err(d),
        };
        match require_capability(&target, Capability::CanAcceptMigration, line, "migrate target requires can_accept_migration") {
            Ok(()) => {},
            Err(d) => return Err(d),
        }
        let target_arch = match &target.ty {
            TypeKind::Node { arch } => *arch,
            _ => {
                let mut help = String::new();
                help.append("target passport: ");
                help.append(target.to_text().as_str());
                return Err(error_help(DiagnosticKind::MigrationBridgeError, line, "migrate target must be Node<x86_64> or Node<aarch64>", help.as_str()));
            },
        };
        let (source_theory, source_passport) = match &args[1].kind {
            ExprKind::QualifiedIdent { theory, name: n } => match self.lookup_qualified(theory.as_str(), n.as_str(), theory.as_str(), line) {
                Ok(p) => (theory.clone(), p),
                Err(d) => return Err(d),
            },
            _ => match self.infer_expr(&args[1], amb) {
                Ok(p) => (String::from_str(amb), p),
                Err(d) => return Err(d),
            },
        };
        let bname = match self.bridge_name(source_theory.as_str(), amb, BridgeKind::Migration) {
            Some(x) => x,
            None => {
                let mut msg = String::new();
                msg.append("no migration bridge from theory ");
                msg.append(source_theory.as_str());
                msg.append(" to ");
                msg.append(amb);
                msg.append(" in scope");
                return Err(error_help(DiagnosticKind::MigrationBridgeError, line, msg.as_str(), "declare or import: bridge Name : Source -> Target { kind = migration }"));
            },
        };
        match require_capability(&source_passport, Capability::CanSerializeForMigration, line, "migrate source requires can_serialize_for_migration") {
            Ok(()) => {},
            Err(d) => return Err(d),
        }
        Ok(source_passport.migrated_to(amb, target_arch, bname.as_str()))
    }

    pub(crate) fn b_equals(&self, name: &str, args: &Vec<Expr>, amb: &str, line: usize) -> (r: Result<Passport, Diagnostic>)
        ensures
            passport_result(r) == b_equals_spec(self@.env, name@, args_model(args@), amb@, line),
    {
        proof {
            args_model_lemma(args@);
            lemma_args_size(args_model(args@));
        }
        Err(error_help(DiagnosticKind::EqualityModeError, line, "ambiguous equality is not allowed", "use an explicit equality mode: eq_value(...), eq_syntax(...), or eq_proof(...)"))
    }

    pub(crate) fn b_eq_value(&self, name: &str, args: &Vec<Expr>, amb: &str, line: usize) -> (r: Result<Passport, Diagnostic>)
        ensures
            passport_result(r) == b_eq_value_spec(self@.env, name@, args_model(args@), amb@, line),
        decreases 2 * args_size(args_model(args@)) + 1, args@.len() + 1,
    {
        proof {
            args_model_lemma(args@);
            lemma_args_size(args_model(args@));
        }
        if args.len() != 2 {
            return Err(Diagnostic::error(DiagnosticKind::ParseError, Some(line), "eq_value expects two arguments"));
        }
        let lhs = match self.infer_expr(&args[0], amb) {
            Ok(x) => x,
            Err(d) => return Err(d),
        };
        let rhs = match self.infer_expr(&args[1], amb) {
            Ok(x) => x,
            Err(d) => return Err(d),
        };
        if !lhs.ty.same_as(&rhs.ty) {
            let mut help = String::new();
            help.append("left: ");
            help.append(lhs.to_text().as_str());
            help.append("\n  right: ");
            help.append(rhs.to_text().as_str());
            return Err(error_help(DiagnosticKind::EqualityModeError, line, "eq_value requires both operands to have the same value type", help.as_str()));
        }
        match require_capability(&lhs, Capability::CanCompareDirect, line, "eq_value requires can_compare_direct on the left operand") {
            Ok(()) => {},
            Err(d) => return Err(d),
        }
        match require_capability(&rhs, Capability::CanCompareDirect, line, "eq_value requires can_compare_direct on the right operand") {
            Ok(()) => {},
            Err(d) => return Err(d),
        }
        Ok(compare_passport(&lhs, &rhs, amb, "equality:value"))
    }

    pub(crate) fn b_eq_proof(&self, name: &str, args: &Vec<Expr>, amb: &str, line: usize) -> (r: Result<Passport, Diagnostic>)
        ensures
            passport_result(r) == b_eq_proof_spec(self@.env, name@, args_model(args@), amb@, line),
        decreases 2 * args_size(args_model(args@)) + 1, args@.len() + 1,
    {
        proof {
            args_model_lemma(args@);
            lemma_args_size(args_model(args@));
        }
        if args.len() != 2 {
            return Err(Diagnostic::error(DiagnosticKind::ParseError, Some(line), "eq_proof expects two arguments"));
        }
        let lhs = match self.infer_expr(&args[0], amb) {
            Ok(x) => x,
            Err(d) => return Err(d),
        };
        let rhs = match self.infer_expr(&args[1], amb) {
            Ok(x) => x,
            Err(d) => return Err(d),
        };
        if !lhs.ty.same_as(&rhs.ty) {
            let mut help = String::new();
            help.append("left: ");
            help.append(lhs.to_text().as_str());
            help.append("\n  right: ");
            help.append(rhs.to_text().as_str());
            return Err(error_help(DiagnosticKind::EqualityModeError, line, "eq_proof requires both operands to have the same proof-comparable type", help.as_str()));
        }
        match require_capability(&lhs, Capability::CanCompareByProof, line, "eq_proof requires can_compare_by_proof on the left operand") {
            Ok(()) => {},
            Err(d) => return Err(d),
        }
        match require_capability(&rhs, Capability::CanCompareByProof, line, "eq_proof requires can_compare_by_proof on the right operand") {
            Ok(()) => {},
            Err(d) => return Err(d),
        }
        Ok(proof_compare_passport(&lhs, &rhs, amb, "equality:proof", CostClass::ProofRequired))
    }

    pub(crate) fn b_eq_syntax(&self, name: &str, args: &Vec<Expr>, amb: &str, line: usize) -> (r: Result<Passport, Diagnostic>)
        ensures
            passport_result(r) == b_eq_syntax_spec(self@.env, name@, args_model(args@), amb@, line),
        decreases 2 * args_size(args_model(args@)) + 1, args@.len() + 1,
    {
        proof {
            args_model_lemma(args@);
            lemma_args_size(args_model(args@));
        }
        if args.len() != 2 {
            return Err(Diagnostic::error(DiagnosticKind::ParseError, Some(line), "eq_syntax expects two Term arguments"));
        }
        let lhs = match self.infer_expr(&args[0], amb) {
            Ok(x) => x,
            Err(d) => return Err(d),
        };
        let rhs = match self.infer_expr(&args[1], amb) {
            Ok(x) => x,
            Err(d) => return Err(d),
        };
        if !matches!(lhs.ty, TypeKind::Term { .. }) || !matches!(rhs.ty, TypeKind::Term { .. }) {
            let mut help = String::new();
            help.append("left: ");
            help.append(lhs.to_text().as_str());
            help.append("\n  right: ");
            help.append(rhs.to_text().as_str());
            return Err(error_help(DiagnosticKind::EqualityModeError, line, "eq_syntax requires Term operands", help.as_str()));
        }
        match require_capability(&lhs, Capability::CanCompareSyntax, line, "eq_syntax requires can_compare_syntax on the left operand") {
            Ok(()) => {},
            Err(d) => return Err(d),
        }
        match require_capability(&rhs, Capability::CanCompareSyntax, line, "eq_syntax requires can_compare_syntax on the right operand") {
            Ok(()) => {},
            Err(d) => return Err(d),
        }
        Ok(proof_compare_passport(&lhs, &rhs, amb, "equality:syntax", CostClass::SmallFinite))
    }

    pub(crate) fn b_print_symbolic(&self, name: &str, args: &Vec<Expr>, amb: &str, line: usize) -> (r: Result<Passport, Diagnostic>)
        ensures
            passport_result(r) == b_print_symbolic_spec(self@.env, name@, args_model(args@), amb@, line),
        decreases 2 * args_size(args_model(args@)) + 1, args@.len() + 1,
    {
        proof {
            args_model_lemma(args@);
            lemma_args_size(args_model(args@));
        }
        if args.len() != 1 {
            return Err(Diagnostic::error(DiagnosticKind::ParseError, Some(line), "print_symbolic expects one argument"));
        }
        let value = match self.infer_expr(&args[0], amb) {
            Ok(x) => x,
            Err(d) => return Err(d),
        };
        match require_capability(&value, Capability::CanSymbolicPrint, line, "print_symbolic requires can_symbolic_print") {
            Ok(()) => {},
            Err(d) => return Err(d),
        }
        Ok(text_passport(&value, amb, value.construction, value.cost, "output:print_symbolic"))
    }

    pub(crate) fn b_print_decimal(&self, name: &str, args: &Vec<Expr>, amb: &str, line: usize) -> (r: Result<Passport, Diagnostic>)
        ensures
            passport_result(r) == b_print_decimal_spec(self@.env, name@, args_model(args@), amb@, line),
        decreases 2 * args_size(args_model(args@)) + 1, args@.len() + 1,
    {
        proof {
            args_model_lemma(args@);
            lemma_args_size(args_model(args@));
        }
        if args.len() != 1 {
            return Err(Diagnostic::error(DiagnosticKind::ParseError, Some(line), "print_decimal expects one argument"));
        }
        let value = match self.infer_expr(&args[0], amb) {
            Ok(x) => x,
            Err(d) => return Err(d),
        };
        match require_capability(&value, Capability::CanPrintDecimal, line, "print_decimal requires can_print_decimal") {
            Ok(()) => {},
            Err(d) => return Err(d),
        }
        Ok(text_passport(&value, amb, ConstructionMode::Literal, CostClass::SmallFinite, "output:print_decimal"))
    }

    pub(crate) fn b_print_text(&self, name: &str, args: &Vec<Expr>, amb: &str, line: usize) -> (r: Result<Passport, Diagnostic>)
        ensures
            passport_result(r) == b_print_text_spec(self@.env, name@, args_model(args@), amb@, line),
        decreases 2 * args_size(args_model(args@)) + 1, args@.len() + 1,
    {
        proof {
            args_model_lemma(args@);
            lemma_args_size(args_model(args@));
        }
        if args.len() != 1 {
            return Err(Diagnostic::error(DiagnosticKind::ParseError, Some(line), "print_text expects one argument"));
        }
        let value = match self.infer_expr(&args[0], amb) {
            Ok(x) => x,
            Err(d) => return Err(d),
        };
        if !matches!(value.ty, TypeKind::Text) {
            let mut help = String::new();
            help.append("value passport: ");
            help.append(value.to_text().as_str());
            return Err(error_help(DiagnosticKind::AccessError, line, "print_text expects a Text value", help.as_str()));
        }
        match require_capability(&value, Capability::CanSymbolicPrint, line, "print_text requires can_symbolic_print") {
            Ok(()) => {},
            Err(d) => return Err(d),
        }
        Ok(text_passport(&value, amb, value.construction, value.cost, "output:print_text"))
    }

    pub(crate) fn b_inspect_ast(&self, name: &str, args: &Vec<Expr>, amb: &str, line: usize) -> (r: Result<Passport, Diagnostic>)
        ensures
            passport_result(r) == b_inspect_ast_spec(self@.env, name@, args_model(args@), amb@, line),
        decreases 2 * args_size(args_model(args@)) + 1, args@.len() + 1,
    {
        proof {
            args_model_lemma(args@);
            lemma_args_size(args_model(args@));
        }
        if args.len() != 1 {
            return Err(Diagnostic::error(DiagnosticKind::ParseError, Some(line), "inspect_ast expects one Term argument"));
        }
        let value = match self.infer_expr(&args[0], amb) {
            Ok(x) => x,
            Err(d) => return Err(d),
        };
        match require_capability(&value, Capability::CanInspectAst, line, "inspect_ast requires can_inspect_ast") {
            Ok(()) => {},
            Err(d) => return Err(d),
        }
        if !matches!(value.ty, TypeKind::Term { .. }) {
            let mut help = String::new();
            help.append("value passport: ");
            help.append(value.to_text().as_str());
            return Err(error_help(DiagnosticKind::AccessError, line, "inspect_ast expects a Term value", help.as_str()));
        }
        Ok(text_passport(&value, amb, ConstructionMode::Literal, CostClass::SmallFinite, "inspect:ast"))
    }

    pub(crate) fn b_read(&self, name: &str, args: &Vec<Expr>, amb: &str, line: usize) -> (r: Result<Passport, Diagnostic>)
        ensures
            passport_result(r) == b_read_spec(self@.env, name@, args_model(args@), amb@, line),
    {
        proof {
            args_model_lemma(args@);
            lemma_args_size(args_model(args@));
        }
        Ok(Passport::raw_external_bytes(amb))
    }

    pub(crate) fn b_parse_nat(&self, name: &str, args: &Vec<Expr>, amb: &str, line: usize) -> (r: Result<Passport, Diagnostic>)
        ensures
            passport_result(r) == b_parse_nat_spec(self@.env, name@, args_model(args@), amb@, line),
        decreases 2 * args_size(args_model(args@)) + 1, args@.len() + 1,
    {
        proof {
            args_model_lemma(args@);
            lemma_args_size(args_model(args@));
        }
        if args.len() != 1 {
            return Err(Diagnostic::error(DiagnosticKind::ParseError, Some(line), "parse_nat expects one argument"));
        }
        let raw = match self.infer_expr(&args[0], amb) {
            Ok(x) => x,
            Err(d) => return Err(d),
        };
        match require_capability(&raw, Capability::CanParse, line, "parse_nat requires raw parse capability") {
            Ok(()) => {},
            Err(d) => return Err(d),
        }
        let mut p = Passport::runtime_nat_from_input(amb);
        p.trust = raw.trust;
        Ok(p)
    }

    pub(crate) fn b_axiom_true(&self, name: &str, args: &Vec<Expr>, amb: &str, line: usize) -> (r: Result<Passport, Diagnostic>)
        ensures
            passport_result(r) == b_axiom_true_spec(self@.env, name@, args_model(args@), amb@, line),
    {
        proof {
            args_model_lemma(args@);
            lemma_args_size(args_model(args@));
        }
        if args.len() != 0 {
            let mut msg = String::new();
            msg.append(name);
            msg.append(" expects no arguments");
            return Err(Diagnostic::error(DiagnosticKind::ParseError, Some(line), msg.as_str()));
        }
        Ok(Passport::axiom_bool(amb))
    }

    pub(crate) fn b_axiom_nat(&self, name: &str, args: &Vec<Expr>, amb: &str, line: usize) -> (r: Result<Passport, Diagnostic>)
        ensures
            passport_result(r) == b_axiom_nat_spec(self@.env, name@, args_model(args@), amb@, line),
    {
        proof {
            args_model_lemma(args@);
            lemma_args_size(args_model(args@));
        }
        if args.len() != 0 {
            let mut msg = String::new();
            msg.append(name);
            msg.append(" expects no arguments");
            return Err(Diagnostic::error(DiagnosticKind::ParseError, Some(line), msg.as_str()));
        }
        Ok(Passport::axiom_nat(amb))
    }

    pub(crate) fn b_unsafe_nat(&self, name: &str, args: &Vec<Expr>, amb: &str, line: usize) -> (r: Result<Passport, Diagnostic>)
        ensures
            passport_result(r) == b_unsafe_nat_spec(self@.env, name@, args_model(args@), amb@, line),
    {
        proof {
            args_model_lemma(args@);
            lemma_args_size(args_model(args@));
        }
        if args.len() != 0 {
            let mut msg = String::new();
            msg.append(name);
            msg.append(" expects no arguments");
            return Err(Diagnostic::error(DiagnosticKind::ParseError, Some(line), msg.as_str()));
        }
        Ok(Passport::unsafe_nat(amb))
    }

    pub(crate) fn b_read_nat(&self, name: &str, args: &Vec<Expr>, amb: &str, line: usize) -> (r: Result<Passport, Diagnostic>)
        ensures
            passport_result(r) == b_read_nat_spec(self@.env, name@, args_model(args@), amb@, line),
    {
        proof {
            args_model_lemma(args@);
            lemma_args_size(args_model(args@));
        }
        if args.len() != 0 {
            return Err(Diagnostic::error(DiagnosticKind::ParseError, Some(line), "read_nat expects no arguments"));
        }
        Ok(Passport::runtime_nat_from_input(amb))
    }

    pub(crate) fn b_require(&self, name: &str, args: &Vec<Expr>, amb: &str, line: usize) -> (r: Result<Passport, Diagnostic>)
        ensures
            passport_result(r) == b_require_spec(self@.env, name@, args_model(args@), amb@, line),
        decreases 2 * args_size(args_model(args@)) + 1, args@.len() + 1,
    {
        proof {
            args_model_lemma(args@);
            lemma_args_size(args_model(args@));
        }
        if args.len() != 1 {
            return Err(Diagnostic::error(DiagnosticKind::ParseError, Some(line), "require expects one boolean condition"));
        }
        let condition = match self.infer_expr(&args[0], amb) {
            Ok(x) => x,
            Err(d) => return Err(d),
        };
        if !matches!(condition.ty, TypeKind::Bool) {
            let mut help = String::new();
            help.append("condition passport: ");
            help.append(condition.to_text().as_str());
            return Err(error_help(DiagnosticKind::AccessError, line, "require expects a Bool condition", help.as_str()));
        }
        let mut predicate = String::from_str("line_");
        predicate.append(usize_text(line).as_str());
        predicate.append("_condition");
        Ok(Passport::runtime_witness(amb, predicate.as_str(), &condition))
    }

    pub(crate) fn b_prove(&self, name: &str, args: &Vec<Expr>, amb: &str, line: usize) -> (r: Result<Passport, Diagnostic>)
        ensures
            passport_result(r) == b_prove_spec(self@.env, name@, args_model(args@), amb@, line),
        decreases 2 * args_size(args_model(args@)) + 1, args@.len() + 1,
    {
        proof {
            args_model_lemma(args@);
            lemma_args_size(args_model(args@));
        }
        if args.len() != 1 {
            return Err(Diagnostic::error(DiagnosticKind::ParseError, Some(line), "prove expects one static boolean condition"));
        }
        let condition = match self.infer_expr(&args[0], amb) {
            Ok(x) => x,
            Err(d) => return Err(d),
        };
        if !matches!(condition.ty, TypeKind::Bool) {
            let mut help = String::new();
            help.append("condition passport: ");
            help.append(condition.to_text().as_str());
            return Err(error_help(DiagnosticKind::AccessError, line, "prove expects a Bool condition", help.as_str()));
        }
        if runtime_dependent(&condition) {
            let mut help = String::new();
            help.append("condition passport: ");
            help.append(condition.to_text().as_str());
            help.append("\n  use require(...) to create a RuntimeWitness instead");
            return Err(error_help(DiagnosticKind::RuntimeStaticMismatch, line, "cannot create StaticProof from runtime-dependent input", help.as_str()));
        }
        let mut predicate = String::from_str("line_");
        predicate.append(usize_text(line).as_str());
        predicate.append("_condition");
        Ok(Passport::static_proof(amb, predicate.as_str(), &condition))
    }

    pub(crate) fn b_prop_true(&self, name: &str, args: &Vec<Expr>, amb: &str, line: usize) -> (r: Result<Passport, Diagnostic>)
        ensures
            passport_result(r) == b_prop_true_spec(self@.env, name@, args_model(args@), amb@, line),
    {
        proof {
            args_model_lemma(args@);
            lemma_args_size(args_model(args@));
        }
        if args.len() != 0 {
            let mut msg = String::new();
            msg.append(name);
            msg.append(" expects no arguments");
            return Err(Diagnostic::error(DiagnosticKind::ParseError, Some(line), msg.as_str()));
        }
        Ok(Passport::proposition(amb, "true", None, "prop:true"))
    }

    pub(crate) fn b_prop_gt(&self, name: &str, args: &Vec<Expr>, amb: &str, line: usize) -> (r: Result<Passport, Diagnostic>)
        ensures
            passport_result(r) == b_prop_gt_spec(self@.env, name@, args_model(args@), amb@, line),
        decreases 2 * args_size(args_model(args@)) + 1, args@.len() + 1,
    {
        proof {
            args_model_lemma(args@);
            lemma_args_size(args_model(args@));
        }
        if args.len() != 2 {
            let mut msg = String::new();
            msg.append(name);
            msg.append(" expects two Nat-like arguments");
            return Err(Diagnostic::error(DiagnosticKind::ParseError, Some(line), msg.as_str()));
        }
        let lhs = match self.infer_expr(&args[0], amb) {
            Ok(x) => x,
            Err(d) => return Err(d),
        };
        let rhs = match self.infer_expr(&args[1], amb) {
            Ok(x) => x,
            Err(d) => return Err(d),
        };
        match require_capability(&lhs, Capability::CanCompareDirect, line, "prop_gt requires can_compare_direct on the left operand") {
            Ok(()) => {},
            Err(d) => return Err(d),
        }
        match require_capability(&rhs, Capability::CanCompareDirect, line, "prop_gt requires can_compare_direct on the right operand") {
            Ok(()) => {},
            Err(d) => return Err(d),
        }
        if runtime_dependent(&lhs) || runtime_dependent(&rhs) {
            let mut help = String::new();
            help.append("left: ");
            help.append(lhs.to_text().as_str());
            help.append("\n  right: ");
            help.append(rhs.to_text().as_str());
            help.append("\n  use require(...) for runtime witnesses instead");
            return Err(error_help(DiagnosticKind::RuntimeStaticMismatch, line, "prop_gt cannot create a static proposition from runtime-dependent input", help.as_str()));
        }
        let condition = compare_passport(&lhs, &rhs, amb, "compare:gt");
        Ok(Passport::proposition(amb, "gt", Some(&condition), "prop:gt"))
    }

    pub(crate) fn b_provable_of(&self, name: &str, args: &Vec<Expr>, amb: &str, line: usize) -> (r: Result<Passport, Diagnostic>)
        ensures
            passport_result(r) == b_provable_of_spec(self@.env, name@, args_model(args@), amb@, line),
        decreases 2 * args_size(args_model(args@)) + 1, args@.len() + 1,
    {
        proof {
            args_model_lemma(args@);
            lemma_args_size(args_model(args@));
        }
        if args.len() != 1 {
            let mut msg = String::new();
            msg.append(name);
            msg.append(" expects one StaticProof argument");
            return Err(Diagnostic::error(DiagnosticKind::ParseError, Some(line), msg.as_str()));
        }
        let proof = match self.infer_expr(&args[0], amb) {
            Ok(x) => x,
            Err(d) => return Err(d),
        };
        let predicate = match &proof.ty {
            TypeKind::StaticProof(p) => p.clone(),
            _ => {
                let mut help = String::new();
                help.append("value passport: ");
                help.append(proof.to_text().as_str());
                return Err(error_help(DiagnosticKind::TruthBoundaryError, line, "provable_of requires StaticProof; arbitrary values are not provability claims", help.as_str()));
            },
        };
        Ok(Passport::provable_claim(amb, proof.theory.home.as_str(), predicate.as_str(), &proof))
    }

    pub(crate) fn b_truth_from_provable(&self, name: &str, args: &Vec<Expr>, amb: &str, line: usize) -> (r: Result<Passport, Diagnostic>)
        ensures
            passport_result(r) == b_truth_from_provable_spec(self@.env, name@, args_model(args@), amb@, line),
        decreases 2 * args_size(args_model(args@)) + 1, args@.len() + 1,
    {
        proof {
            args_model_lemma(args@);
            lemma_args_size(args_model(args@));
        }
        if args.len() != 1 {
            let mut msg = String::new();
            msg.append(name);
            msg.append(" expects one Provable claim");
            return Err(Diagnostic::error(DiagnosticKind::ParseError, Some(line), msg.as_str()));
        }
        let claim = match self.infer_expr(&args[0], amb) {
            Ok(x) => x,
            Err(d) => return Err(d),
        };
        if !matches!(claim.ty, TypeKind::Provable { .. }) {
            let mut help = String::new();
            help.append("value passport: ");
            help.append(claim.to_text().as_str());
            return Err(error_help(DiagnosticKind::TruthBoundaryError, line, "truth_from_provable requires Provable<T>; use provable_of(StaticProof) first", help.as_str()));
        }
        Err(error_help(DiagnosticKind::TheoryBridgeError, line, "Provable(phi) cannot be used as Truth(phi) without an explicit soundness bridge or axiom-tainted truth lift", "Use soundness(...) for an explicit theory bridge, or truth_from_provable_axiom(...) to mark the result Axiom-tainted."))
    }

    pub(crate) fn b_truth_from_provable_axiom(&self, name: &str, args: &Vec<Expr>, amb: &str, line: usize) -> (r: Result<Passport, Diagnostic>)
        ensures
            passport_result(r) == b_truth_from_provable_axiom_spec(self@.env, name@, args_model(args@), amb@, line),
        decreases 2 * args_size(args_model(args@)) + 1, args@.len() + 1,
    {
        proof {
            args_model_lemma(args@);
            lemma_args_size(args_model(args@));
        }
        if args.len() != 1 {
            let mut msg = String::new();
            msg.append(name);
            msg.append(" expects one Provable claim");
            return Err(Diagnostic::error(DiagnosticKind::ParseError, Some(line), msg.as_str()));
        }
        let claim = match self.infer_expr(&args[0], amb) {
            Ok(x) => x,
            Err(d) => return Err(d),
        };
        let predicate = match &claim.ty {
            TypeKind::Provable { proposition, .. } => proposition.clone(),
            _ => {
                let mut help = String::new();
                help.append("value passport: ");
                help.append(claim.to_text().as_str());
                return Err(error_help(DiagnosticKind::TruthBoundaryError, line, "truth_from_provable_axiom requires Provable<T>", help.as_str()));
            },
        };
        Ok(Passport::axiom_truth_from_provable(amb, predicate.as_str(), &claim))
    }

    pub(crate) fn b_consistency_claim(&self, name: &str, args: &Vec<Expr>, amb: &str, line: usize) -> (r: Result<Passport, Diagnostic>)
        ensures
            passport_result(r) == b_consistency_claim_spec(self@.env, name@, args_model(args@), amb@, line),
    {
        proof {
            args_model_lemma(args@);
            lemma_args_size(args_model(args@));
        }
        if args.len() != 0 {
            let mut msg = String::new();
            msg.append(name);
            msg.append(" expects no arguments in MVP");
            return Err(Diagnostic::error(DiagnosticKind::ParseError, Some(line), msg.as_str()));
        }
        Ok(Passport::consistency_claim(amb, amb, None))
    }

    pub(crate) fn b_prove_consistency(&self, name: &str, args: &Vec<Expr>, amb: &str, line: usize) -> (r: Result<Passport, Diagnostic>)
        ensures
            passport_result(r) == b_prove_consistency_spec(self@.env, name@, args_model(args@), amb@, line),
        decreases 2 * args_size(args_model(args@)) + 1, args@.len() + 1,
    {
        proof {
            args_model_lemma(args@);
            lemma_args_size(args_model(args@));
        }
        if args.len() != 1 {
            let mut msg = String::new();
            msg.append(name);
            msg.append(" expects one Consistency<T> claim");
            return Err(Diagnostic::error(DiagnosticKind::ParseError, Some(line), msg.as_str()));
        }
        let claim = match self.infer_expr(&args[0], amb) {
            Ok(x) => x,
            Err(d) => return Err(d),
        };
        let target = match &claim.ty {
            TypeKind::ConsistencyClaim { theory } => theory.clone(),
            _ => {
                let mut help = String::new();
                help.append("value passport: ");
                help.append(claim.to_text().as_str());
                return Err(error_help(DiagnosticKind::IncompletenessBoundaryError, line, "prove_consistency requires Consistency<T>", help.as_str()));
            },
        };
        let mut msg = String::new();
        msg.append("cannot prove Consistency<");
        msg.append(target.as_str());
        msg.append("> inside the current MVP theory context");
        Err(error_help(DiagnosticKind::IncompletenessBoundaryError, line, msg.as_str(), "Use assume_consistency(...) to mark the result Axiom-tainted, or move the claim through an explicit stronger meta-theory/soundness framework in a future proof-kernel layer."))
    }

    pub(crate) fn b_consistency_axiom(&self, name: &str, args: &Vec<Expr>, amb: &str, line: usize) -> (r: Result<Passport, Diagnostic>)
        ensures
            passport_result(r) == b_consistency_axiom_spec(self@.env, name@, args_model(args@), amb@, line),
        decreases 2 * args_size(args_model(args@)) + 1, args@.len() + 1,
    {
        proof {
            args_model_lemma(args@);
            lemma_args_size(args_model(args@));
        }
        if args.len() != 1 {
            let mut msg = String::new();
            msg.append(name);
            msg.append(" expects one Consistency<T> claim");
            return Err(Diagnostic::error(DiagnosticKind::ParseError, Some(line), msg.as_str()));
        }
        let claim = match self.infer_expr(&args[0], amb) {
            Ok(x) => x,
            Err(d) => return Err(d),
        };
        let target = match &claim.ty {
            TypeKind::ConsistencyClaim { theory } => theory.clone(),
            _ => {
                let mut help = String::new();
                help.append("value passport: ");
                help.append(claim.to_text().as_str());
                return Err(error_help(DiagnosticKind::IncompletenessBoundaryError, line, "assume_consistency requires Consistency<T>", help.as_str()));
            },
        };
        Ok(Passport::axiom_consistency_proof(amb, target.as_str(), &claim))
    }

    pub(crate) fn b_reflection_claim(&self, name: &str, args: &Vec<Expr>, amb: &str, line: usize) -> (r: Result<Passport, Diagnostic>)
        ensures
            passport_result(r) == b_reflection_claim_spec(self@.env, name@, args_model(args@), amb@, line),
        decreases 2 * args_size(args_model(args@)) + 1, args@.len() + 1,
    {
        proof {
            args_model_lemma(args@);
            lemma_args_size(args_model(args@));
        }
        if args.len() != 1 {
            let mut msg = String::new();
            msg.append(name);
            msg.append(" expects one Provable<T> claim");
            return Err(Diagnostic::error(DiagnosticKind::ParseError, Some(line), msg.as_str()));
        }
        let claim = match self.infer_expr(&args[0], amb) {
            Ok(x) => x,
            Err(d) => return Err(d),
        };
        let pair = match &claim.ty {
            TypeKind::Provable { object_theory, proposition } => (object_theory.clone(), proposition.clone()),
            _ => {
                let mut help = String::new();
                help.append("value passport: ");
                help.append(claim.to_text().as_str());
                return Err(error_help(DiagnosticKind::ReflectionBoundaryError, line, "reflection_claim requires Provable<T>; reflection is a meta-level claim about provability", help.as_str()));
            },
        };
        let bname = match self.bridge_name(pair.0.as_str(), amb, BridgeKind::Reflection) {
            Some(x) => x,
            None => {
                let mut msg = String::new();
                msg.append("no reflection bridge from theory ");
                msg.append(pair.0.as_str());
                msg.append(" to ");
                msg.append(amb);
                msg.append(" in scope");
                return Err(error_help(DiagnosticKind::ReflectionBoundaryError, line, msg.as_str(), "declare or import an explicit reflection bridge: bridge Name : Source -> Target { kind = reflection }"));
            },
        };
        Ok(Passport::reflection_claim(amb, pair.0.as_str(), pair.1.as_str(), &claim))
    }

    pub(crate) fn b_reflection_axiom(&self, name: &str, args: &Vec<Expr>, amb: &str, line: usize) -> (r: Result<Passport, Diagnostic>)
        ensures
            passport_result(r) == b_reflection_axiom_spec(self@.env, name@, args_model(args@), amb@, line),
        decreases 2 * args_size(args_model(args@)) + 1, args@.len() + 1,
    {
        proof {
            args_model_lemma(args@);
            lemma_args_size(args_model(args@));
        }
        if args.len() != 1 {
            let mut msg = String::new();
            msg.append(name);
            msg.append(" expects one Reflection<T> claim");
            return Err(Diagnostic::error(DiagnosticKind::ParseError, Some(line), msg.as_str()));
        }
        let claim = match self.infer_expr(&args[0], amb) {
            Ok(x) => x,
            Err(d) => return Err(d),
        };
        let pair = match &claim.ty {
            TypeKind::ReflectionClaim { object_theory, proposition } => (object_theory.clone(), proposition.clone()),
            _ => {
                let mut help = String::new();
                help.append("value passport: ");
                help.append(claim.to_text().as_str());
                return Err(error_help(DiagnosticKind::ReflectionBoundaryError, line, "reflection_axiom requires Reflection<T>; use reflection_claim(provable_of(...)) first", help.as_str()));
            },
        };
        Ok(Passport::axiom_reflection_proof(amb, pair.0.as_str(), pair.1.as_str(), &claim))
    }

    pub(crate) fn b_self_reference(&self, name: &str, args: &Vec<Expr>, amb: &str, line: usize) -> (r: Result<Passport, Diagnostic>)
        ensures
            passport_result(r) == b_self_reference_spec(self@.env, name@, args_model(args@), amb@, line),
        decreases 2 * args_size(args_model(args@)) + 1, args@.len() + 1,
    {
        proof {
            args_model_lemma(args@);
            lemma_args_size(args_model(args@));
        }
        if args.len() != 1 {
            let mut msg = String::new();
            msg.append(name);
            msg.append(" expects one Prop value");
            return Err(Diagnostic::error(DiagnosticKind::ParseError, Some(line), msg.as_str()));
        }
        let prop = match self.infer_expr(&args[0], amb) {
            Ok(x) => x,
            Err(d) => return Err(d),
        };
        let proposition = match &prop.ty {
            TypeKind::Prop { name: n } => n.clone(),
            _ => {
                let mut help = String::new();
                help.append("value passport: ");
                help.append(prop.to_text().as_str());
                return Err(error_help(DiagnosticKind::ReflectionBoundaryError, line, "self_reference requires Prop<T>; self-reference is a claim object, not a proof or truth value", help.as_str()));
            },
        };
        let mut ev = String::from_str("self_reference:claim:");
        ev.append(proposition.as_str());
        Ok(Passport::self_reference_claim(amb, proposition.as_str(), Some(&prop), ev.as_str()))
    }

    pub(crate) fn b_godel_sentence(&self, name: &str, args: &Vec<Expr>, amb: &str, line: usize) -> (r: Result<Passport, Diagnostic>)
        ensures
            passport_result(r) == b_godel_sentence_spec(self@.env, name@, args_model(args@), amb@, line),
    {
        proof {
            args_model_lemma(args@);
            lemma_args_size(args_model(args@));
        }
        if args.len() != 0 {
            return Err(Diagnostic::error(DiagnosticKind::ParseError, Some(line), "godel_sentence expects no arguments"));
        }
        Ok(Passport::self_reference_claim(amb, "godel_sentence", None, "self_reference:claim:godel_sentence"))
    }

    pub(crate) fn b_self_reference_axiom(&self, name: &str, args: &Vec<Expr>, amb: &str, line: usize) -> (r: Result<Passport, Diagnostic>)
        ensures
            passport_result(r) == b_self_reference_axiom_spec(self@.env, name@, args_model(args@), amb@, line),
        decreases 2 * args_size(args_model(args@)) + 1, args@.len() + 1,
    {
        proof {
            args_model_lemma(args@);
            lemma_args_size(args_model(args@));
        }
        if args.len() != 1 {
            let mut msg = String::new();
            msg.append(name);
            msg.append(" expects one SelfReference<T> claim");
            return Err(Diagnostic::error(DiagnosticKind::ParseError, Some(line), msg.as_str()));
        }
        let claim = match self.infer_expr(&args[0], amb) {
            Ok(x) => x,
            Err(d) => return Err(d),
        };
        let proposition = match &claim.ty {
            TypeKind::SelfReferenceClaim { proposition } => proposition.clone(),
            _ => {
                let mut help = String::new();
                help.append("value passport: ");
                help.append(claim.to_text().as_str());
                return Err(error_help(DiagnosticKind::ReflectionBoundaryError, line, "self_reference_axiom requires SelfReference<T>; use self_reference(...) or godel_sentence() first", help.as_str()));
            },
        };
        Ok(Passport::axiom_self_reference_proof(amb, proposition.as_str(), &claim))
    }

    pub(crate) fn b_reflect_provable(&self, name: &str, args: &Vec<Expr>, amb: &str, line: usize) -> (r: Result<Passport, Diagnostic>)
        ensures
            passport_result(r) == b_reflect_provable_spec(self@.env, name@, args_model(args@), amb@, line),
    {
        proof {
            args_model_lemma(args@);
            lemma_args_size(args_model(args@));
        }
        let mut msg = String::new();
        msg.append(name);
        msg.append(" crosses the reflection/self-reference boundary implicitly");
        Err(error_help(DiagnosticKind::ReflectionBoundaryError, line, msg.as_str(), "Reflection and self-reference must remain explicit claim objects. Use reflection_claim(...), self_reference(...), and an axiom-tainted lift only when the assumption must be visible in the passport history."))
    }

    pub(crate) fn b_proof_true(&self, name: &str, args: &Vec<Expr>, amb: &str, line: usize) -> (r: Result<Passport, Diagnostic>)
        ensures
            passport_result(r) == b_proof_true_spec(self@.env, name@, args_model(args@), amb@, line),
    {
        proof {
            args_model_lemma(args@);
            lemma_args_size(args_model(args@));
        }
        if args.len() != 0 {
            let mut msg = String::new();
            msg.append(name);
            msg.append(" expects no arguments");
            return Err(Diagnostic::error(DiagnosticKind::ParseError, Some(line), msg.as_str()));
        }
        Ok(Passport::proof_term(amb, "true_intro", None))
    }

    pub(crate) fn b_proof_gt(&self, name: &str, args: &Vec<Expr>, amb: &str, line: usize) -> (r: Result<Passport, Diagnostic>)
        ensures
            passport_result(r) == b_proof_gt_spec(self@.env, name@, args_model(args@), amb@, line),
        decreases 2 * args_size(args_model(args@)) + 1, args@.len() + 1,
    {
        proof {
            args_model_lemma(args@);
            lemma_args_size(args_model(args@));
        }
        if args.len() != 2 {
            let mut msg = String::new();
            msg.append(name);
            msg.append(" expects two Nat-like arguments");
            return Err(Diagnostic::error(DiagnosticKind::ParseError, Some(line), msg.as_str()));
        }
        let lhs = match self.infer_expr(&args[0], amb) {
            Ok(x) => x,
            Err(d) => return Err(d),
        };
        let rhs = match self.infer_expr(&args[1], amb) {
            Ok(x) => x,
            Err(d) => return Err(d),
        };
        match require_capability(&lhs, Capability::CanCompareDirect, line, "proof_gt requires can_compare_direct on the left operand") {
            Ok(()) => {},
            Err(d) => return Err(d),
        }
        match require_capability(&rhs, Capability::CanCompareDirect, line, "proof_gt requires can_compare_direct on the right operand") {
            Ok(()) => {},
            Err(d) => return Err(d),
        }
        if runtime_dependent(&lhs) || runtime_dependent(&rhs) {
            let mut help = String::new();
            help.append("left: ");
            help.append(lhs.to_text().as_str());
            help.append("\n  right: ");
            help.append(rhs.to_text().as_str());
            help.append("\n  use require(...) for runtime witnesses instead");
            return Err(error_help(DiagnosticKind::RuntimeStaticMismatch, line, "proof_gt cannot create a kernel proof term from runtime-dependent input", help.as_str()));
        }
        let condition = compare_passport(&lhs, &rhs, amb, "compare:gt");
        Ok(Passport::proof_term(amb, "gt_intro", Some(&condition)))
    }

    pub(crate) fn b_check_proof(&self, name: &str, args: &Vec<Expr>, amb: &str, line: usize) -> (r: Result<Passport, Diagnostic>)
        ensures
            passport_result(r) == b_check_proof_spec(self@.env, name@, args_model(args@), amb@, line),
        decreases 2 * args_size(args_model(args@)) + 1, args@.len() + 1,
    {
        proof {
            args_model_lemma(args@);
            lemma_args_size(args_model(args@));
        }
        if args.len() != 1 {
            let mut msg = String::new();
            msg.append(name);
            msg.append(" expects one ProofTerm argument");
            return Err(Diagnostic::error(DiagnosticKind::ParseError, Some(line), msg.as_str()));
        }
        let term = match self.infer_expr(&args[0], amb) {
            Ok(x) => x,
            Err(d) => return Err(d),
        };
        if !matches!(term.ty, TypeKind::ProofTerm { .. }) {
            let mut help = String::new();
            help.append("value passport: ");
            help.append(term.to_text().as_str());
            return Err(error_help(DiagnosticKind::ProofKernelError, line, "check_proof requires a ProofTerm produced by the proof kernel", help.as_str()));
        }
        match require_capability(&term, Capability::CanProofKernelCheck, line, "check_proof requires can_proof_kernel_check") {
            Ok(()) => {},
            Err(d) => return Err(d),
        }
        let predicate = checked_predicate_of(&term.ty, line);
        Ok(Passport::kernel_checked_proof(amb, predicate.as_str(), &term))
    }

    pub(crate) fn b_fake_proof(&self, name: &str, args: &Vec<Expr>, amb: &str, line: usize) -> (r: Result<Passport, Diagnostic>)
        ensures
            passport_result(r) == b_fake_proof_spec(self@.env, name@, args_model(args@), amb@, line),
    {
        proof {
            args_model_lemma(args@);
            lemma_args_size(args_model(args@));
        }
        Err(error_help(DiagnosticKind::ProofKernelError, line, "bare/fake proof terms are not allowed", "use proof_true(), proof_gt(...), or another kernel constructor, then check_proof(...)"))
    }

    pub(crate) fn b_quote(&self, name: &str, args: &Vec<Expr>, amb: &str, line: usize) -> (r: Result<Passport, Diagnostic>)
        ensures
            passport_result(r) == b_quote_spec(self@.env, name@, args_model(args@), amb@, line),
    {
        proof {
            args_model_lemma(args@);
            lemma_args_size(args_model(args@));
        }
        if args.len() != 1 {
            return Err(Diagnostic::error(DiagnosticKind::ParseError, Some(line), "quote expects one argument"));
        }
        let (src, nm) = match &args[0].kind {
            ExprKind::QualifiedIdent { theory, name: n } => (theory.clone(), n.clone()),
            _ => return Err(Diagnostic::error(DiagnosticKind::TheoryBridgeError, Some(line), "quote MVP expects a qualified source expression like PA.n")),
        };
        let source_passport = match self.lookup_qualified(src.as_str(), nm.as_str(), src.as_str(), line) {
            Ok(x) => x,
            Err(d) => return Err(d),
        };
        let bname = match self.bridge_name(src.as_str(), amb, BridgeKind::Quote) {
            Some(x) => x,
            None => {
                let mut msg = String::new();
                msg.append("no quote bridge from theory ");
                msg.append(src.as_str());
                msg.append(" to ");
                msg.append(amb);
                msg.append(" in scope");
                return Err(error_help(DiagnosticKind::TheoryBridgeError, line, msg.as_str(), "declare or import: bridge Name : Source -> Target { kind = quote }"));
            },
        };
        let ty_text = source_passport.ty.to_text();
        Ok(Passport::term_of(amb, src.as_str(), ty_text.as_str(), bname.as_str(), &source_passport))
    }

    pub(crate) fn b_transport(&self, name: &str, args: &Vec<Expr>, amb: &str, line: usize) -> (r: Result<Passport, Diagnostic>)
        ensures
            passport_result(r) == b_transport_spec(self@.env, name@, args_model(args@), amb@, line),
    {
        proof {
            args_model_lemma(args@);
            lemma_args_size(args_model(args@));
        }
        if args.len() != 1 {
            return Err(Diagnostic::error(DiagnosticKind::ParseError, Some(line), "transport expects one qualified source value"));
        }
        let (src, nm) = match &args[0].kind {
            ExprKind::QualifiedIdent { theory, name: n } => (theory.clone(), n.clone()),
            _ => return Err(Diagnostic::error(DiagnosticKind::TheoryBridgeError, Some(line), "transport MVP expects a qualified source expression like PA.n")),
        };
        let source_passport = match self.lookup_qualified(src.as_str(), nm.as_str(), src.as_str(), line) {
            Ok(x) => x,
            Err(d) => return Err(d),
        };
        let bname = match self.bridge_name(src.as_str(), amb, BridgeKind::Transport) {
            Some(x) => x,
            None => {
                let mut msg = String::new();
                msg.append("no transport bridge from theory ");
                msg.append(src.as_str());
                msg.append(" to ");
                msg.append(amb);
                msg.append(" in scope");
                return Err(error_help(DiagnosticKind::TheoryBridgeError, line, msg.as_str(), "declare or import: bridge Name : Source -> Target { kind = transport }"));
            },
        };
        Ok(source_passport.transported_to(amb, bname.as_str()))
    }

    pub(crate) fn b_soundness(&self, name: &str, args: &Vec<Expr>, amb: &str, line: usize) -> (r: Result<Passport, Diagnostic>)
        ensures
            passport_result(r) == b_soundness_spec(self@.env, name@, args_model(args@), amb@, line),
    {
        proof {
            args_model_lemma(args@);
            lemma_args_size(args_model(args@));
        }
        if args.len() != 1 {
            return Err(Diagnostic::error(DiagnosticKind::ParseError, Some(line), "soundness expects one qualified proof value"));
        }
        let (src, nm) = match &args[0].kind {
            ExprKind::QualifiedIdent { theory, name: n } => (theory.clone(), n.clone()),
            _ => return Err(Diagnostic::error(DiagnosticKind::TheoryBridgeError, Some(line), "soundness MVP expects a qualified source proof like PA.p")),
        };
        let source_passport = match self.lookup_qualified(src.as_str(), nm.as_str(), src.as_str(), line) {
            Ok(x) => x,
            Err(d) => return Err(d),
        };
        if !matches!(source_passport.ty, TypeKind::StaticProof(..)) {
            let mut help = String::new();
            help.append("source passport: ");
            help.append(source_passport.to_text().as_str());
            return Err(error_help(DiagnosticKind::TheoryBridgeError, line, "soundness MVP expects a StaticProof from the source theory", help.as_str()));
        }
        let bname = match self.bridge_name(src.as_str(), amb, BridgeKind::Soundness) {
            Some(x) => x,
            None => {
                let mut msg = String::new();
                msg.append("no soundness bridge from theory ");
                msg.append(src.as_str());
                msg.append(" to ");
                msg.append(amb);
                msg.append(" in scope");
                return Err(error_help(DiagnosticKind::TheoryBridgeError, line, msg.as_str(), "declare a trusted bridge Name : Source -> Target { kind = soundness }"));
            },
        };
        let mut predicate = String::from_str("soundness_of_");
        predicate.append(src.as_str());
        predicate.append("_");
        predicate.append(nm.as_str());
        Ok(Passport::soundness_proof(amb, predicate.as_str(), &source_passport, bname.as_str()))
    }

    pub(crate) fn call_group0(&self, name: &str, args: &Vec<Expr>, amb: &str, line: usize) -> (r: Option<Result<Passport, Diagnostic>>)
        ensures
            call_group0_spec(self@.env, name@, args_model(args@), amb@, line) == (match r {
            Some(x) => Some(passport_result(x)),
            None => None::<Result<PassportV, DiagnosticV>>,
            }),
        decreases 2 * args_size(args_model(args@)) + 1, args@.len() + 2,
    {
        if str_eq(name, "universe") {
            return Some(self.b_universe(name, args, amb, line));
        }
        if str_eq(name, "U0") || str_eq(name, "universe0") {
            return Some(self.b_u0(name, args, amb, line));
        }
        if str_eq(name, "U1") || str_eq(name, "universe1") {
            return Some(self.b_u1(name, args, amb, line));
        }
        if str_eq(name, "U2") || str_eq(name, "universe2") {
            return Some(self.b_u2(name, args, amb, line));
        }
        if str_eq(name, "universe_succ") || str_eq(name, "next_universe") {
            return Some(self.b_universe_succ(name, args, amb, line));
        }
        if str_eq(name, "set_of") || str_eq(name, "set_from_universe") {
            return Some(self.b_set_of(name, args, amb, line));
        }
        if str_eq(name, "class_of") || str_eq(name, "class_from_universe") {
            return Some(self.b_class_of(name, args, amb, line));
        }
        if str_eq(name, "set_lives_in") {
            return Some(self.b_set_lives_in(name, args, amb, line));
        }
        if str_eq(name, "class_level") {
            return Some(self.b_class_level(name, args, amb, line));
        }
        if str_eq(name, "set_of_all_sets") || str_eq(name, "russell_set") {
            return Some(self.b_set_of_all_sets(name, args, amb, line));
        }
        if str_eq(name, "language_L0") || str_eq(name, "L0_language") || str_eq(name, "language_core") {
            return Some(self.b_language_l0(name, args, amb, line));
        }
        if str_eq(name, "encoding_godel") || str_eq(name, "godel_encoding") {
            return Some(self.b_encoding_godel(name, args, amb, line));
        }
        None
    }

    pub(crate) fn call_group1(&self, name: &str, args: &Vec<Expr>, amb: &str, line: usize) -> (r: Option<Result<Passport, Diagnostic>>)
        ensures
            call_group1_spec(self@.env, name@, args_model(args@), amb@, line) == (match r {
            Some(x) => Some(passport_result(x)),
            None => None::<Result<PassportV, DiagnosticV>>,
            }),
        decreases 2 * args_size(args_model(args@)) + 1, args@.len() + 2,
    {
        if str_eq(name, "meta_level") || str_eq(name, "M") {
            return Some(self.b_meta_level(name, args, amb, line));
        }
        if str_eq(name, "definable_nat") || str_eq(name, "define_nat") {
            return Some(self.b_definable_nat(name, args, amb, line));
        }
        if str_eq(name, "definability_bound") || str_eq(name, "definition_bound") {
            return Some(self.b_definability_bound(name, args, amb, line));
        }
        if str_eq(name, "definability_meta_level") || str_eq(name, "definition_meta_level") {
            return Some(self.b_definability_meta_level(name, args, amb, line));
        }
        if str_eq(name, "berry_number") || str_eq(name, "smallest_undefinable") || str_eq(name, "undefinable_nat") {
            return Some(self.b_berry_number(name, args, amb, line));
        }
        if str_eq(name, "big_number") || str_eq(name, "huge_number") {
            return Some(self.b_big_number(name, args, amb, line));
        }
        if str_eq(name, "Graham") || str_eq(name, "graham") {
            return Some(self.b_graham(name, args, amb, line));
        }
        if str_eq(name, "TREE") || str_eq(name, "tree") || str_eq(name, "tree_number") {
            return Some(self.b_tree(name, args, amb, line));
        }
        if str_eq(name, "BB") || str_eq(name, "busy_beaver") {
            return Some(self.b_bb(name, args, amb, line));
        }
        if str_eq(name, "fast_growing") || str_eq(name, "FGH") {
            return Some(self.b_fast_growing(name, args, amb, line));
        }
        if str_eq(name, "growth_parameter") || str_eq(name, "big_number_parameter") {
            return Some(self.b_growth_parameter(name, args, amb, line));
        }
        if str_eq(name, "infinity") {
            return Some(self.b_infinity(name, args, amb, line));
        }
        None
    }

    pub(crate) fn call_group2(&self, name: &str, args: &Vec<Expr>, amb: &str, line: usize) -> (r: Option<Result<Passport, Diagnostic>>)
        ensures
            call_group2_spec(self@.env, name@, args_model(args@), amb@, line) == (match r {
            Some(x) => Some(passport_result(x)),
            None => None::<Result<PassportV, DiagnosticV>>,
            }),
        decreases 2 * args_size(args_model(args@)) + 1, args@.len() + 2,
    {
        if str_eq(name, "aleph0") || str_eq(name, "infinity_cardinal") {
            return Some(self.b_aleph0(name, args, amb, line));
        }
        if str_eq(name, "omega") || str_eq(name, "infinity_ordinal") {
            return Some(self.b_omega(name, args, amb, line));
        }
        if str_eq(name, "limit_omega") || str_eq(name, "infinity_limit") || str_eq(name, "limit_infinity") {
            return Some(self.b_limit_omega(name, args, amb, line));
        }
        if str_eq(name, "potential_infinity") || str_eq(name, "infinity_potential") {
            return Some(self.b_potential_infinity(name, args, amb, line));
        }
        if str_eq(name, "class_infinity") || str_eq(name, "proper_class_infinity") {
            return Some(self.b_class_infinity(name, args, amb, line));
        }
        if str_eq(name, "universe_infinity") || str_eq(name, "infinity_universe") {
            return Some(self.b_universe_infinity(name, args, amb, line));
        }
        if str_eq(name, "cardinal_succ") {
            return Some(self.b_cardinal_succ(name, args, amb, line));
        }
        if str_eq(name, "ordinal_succ") {
            return Some(self.b_ordinal_succ(name, args, amb, line));
        }
        if str_eq(name, "cardinal_add") || str_eq(name, "cardinal_sum") {
            return Some(self.b_cardinal_add(name, args, amb, line));
        }
        if str_eq(name, "ordinal_add") || str_eq(name, "ordinal_sum") {
            return Some(self.b_ordinal_add(name, args, amb, line));
        }
        if str_eq(name, "potential_step") {
            return Some(self.b_potential_step(name, args, amb, line));
        }
        if str_eq(name, "node_x86") || str_eq(name, "node_x86_64") {
            return Some(self.b_node_x86(name, args, amb, line));
        }
        None
    }

    pub(crate) fn call_group3(&self, name: &str, args: &Vec<Expr>, amb: &str, line: usize) -> (r: Option<Result<Passport, Diagnostic>>)
        ensures
            call_group3_spec(self@.env, name@, args_model(args@), amb@, line) == (match r {
            Some(x) => Some(passport_result(x)),
            None => None::<Result<PassportV, DiagnosticV>>,
            }),
        decreases 2 * args_size(args_model(args@)) + 1, args@.len() + 2,
    {
        if str_eq(name, "node_arm") || str_eq(name, "node_aarch64") {
            return Some(self.b_node_arm(name, args, amb, line));
        }
        if str_eq(name, "node_x86_with") || str_eq(name, "node_x86_64_with") {
            return Some(self.b_node_x86_with(name, args, amb, line));
        }
        if str_eq(name, "node_arm_with") || str_eq(name, "node_aarch64_with") {
            return Some(self.b_node_arm_with(name, args, amb, line));
        }
        if str_eq(name, "gpu_cuda") || str_eq(name, "gpu_device_cuda") {
            return Some(self.b_gpu_cuda(name, args, amb, line));
        }
        if str_eq(name, "gpu_rocm") || str_eq(name, "gpu_device_rocm") {
            return Some(self.b_gpu_rocm(name, args, amb, line));
        }
        if str_eq(name, "gpu_cuda_with") || str_eq(name, "gpu_device_cuda_with") {
            return Some(self.b_gpu_cuda_with(name, args, amb, line));
        }
        if str_eq(name, "gpu_rocm_with") || str_eq(name, "gpu_device_rocm_with") {
            return Some(self.b_gpu_rocm_with(name, args, amb, line));
        }
        if str_eq(name, "gpu_pool") || str_eq(name, "virtual_gpu_pool") {
            return Some(self.b_gpu_pool(name, args, amb, line));
        }
        if str_eq(name, "virtual_pool") || str_eq(name, "virtual_cluster") {
            return Some(self.b_virtual_pool(name, args, amb, line));
        }
        if str_eq(name, "distributed_gpu_memory") || str_eq(name, "allocate_gpu_memory") || str_eq(name, "gpu_memory_region") {
            return Some(self.b_distributed_gpu_memory(name, args, amb, line));
        }
        if str_eq(name, "gpu_memory_mib") || str_eq(name, "distributed_gpu_memory_mib") {
            return Some(self.b_gpu_memory_mib(name, args, amb, line));
        }
        if str_eq(name, "copy_to_gpu") || str_eq(name, "gpu_upload") || str_eq(name, "upload_to_gpu") {
            return Some(self.b_copy_to_gpu(name, args, amb, line));
        }
        None
    }

    pub(crate) fn call_group4(&self, name: &str, args: &Vec<Expr>, amb: &str, line: usize) -> (r: Option<Result<Passport, Diagnostic>>)
        ensures
            call_group4_spec(self@.env, name@, args_model(args@), amb@, line) == (match r {
            Some(x) => Some(passport_result(x)),
            None => None::<Result<PassportV, DiagnosticV>>,
            }),
        decreases 2 * args_size(args_model(args@)) + 1, args@.len() + 2,
    {
        if str_eq(name, "copy_from_gpu") || str_eq(name, "gpu_download") || str_eq(name, "download_from_gpu") {
            return Some(self.b_copy_from_gpu(name, args, amb, line));
        }
        if str_eq(name, "compile_gpu_kernel") || str_eq(name, "gpu_kernel") || str_eq(name, "make_gpu_kernel") {
            return Some(self.b_compile_gpu_kernel(name, args, amb, line));
        }
        if str_eq(name, "launch_kernel") || str_eq(name, "launch_gpu_kernel") || str_eq(name, "gpu_launch") {
            return Some(self.b_launch_kernel(name, args, amb, line));
        }
        if str_eq(name, "pool_cores") || str_eq(name, "cluster_cores") {
            return Some(self.b_pool_cores(name, args, amb, line));
        }
        if str_eq(name, "pool_memory_mib") || str_eq(name, "cluster_memory_mib") {
            return Some(self.b_pool_memory_mib(name, args, amb, line));
        }
        if str_eq(name, "distributed_memory") || str_eq(name, "allocate_memory") || str_eq(name, "memory_region") {
            return Some(self.b_distributed_memory(name, args, amb, line));
        }
        if str_eq(name, "memory_region_mib") || str_eq(name, "distributed_memory_mib") {
            return Some(self.b_memory_region_mib(name, args, amb, line));
        }
        if str_eq(name, "checkpoint_memory") || str_eq(name, "checkpoint") || str_eq(name, "checkpoint_region") {
            return Some(self.b_checkpoint_memory(name, args, amb, line));
        }
        if str_eq(name, "restore_checkpoint") || str_eq(name, "restore_memory") || str_eq(name, "restore") {
            return Some(self.b_restore_checkpoint(name, args, amb, line));
        }
        if str_eq(name, "compile_portable") || str_eq(name, "portable_code") || str_eq(name, "make_portable") {
            return Some(self.b_compile_portable(name, args, amb, line));
        }
        if str_eq(name, "deploy_portable") || str_eq(name, "deploy_code") {
            return Some(self.b_deploy_portable(name, args, amb, line));
        }
        if str_eq(name, "deploy_on") || str_eq(name, "deploy_to_pool") {
            return Some(self.b_deploy_on(name, args, amb, line));
        }
        None
    }

    pub(crate) fn call_group5(&self, name: &str, args: &Vec<Expr>, amb: &str, line: usize) -> (r: Option<Result<Passport, Diagnostic>>)
        ensures
            call_group5_spec(self@.env, name@, args_model(args@), amb@, line) == (match r {
            Some(x) => Some(passport_result(x)),
            None => None::<Result<PassportV, DiagnosticV>>,
            }),
        decreases 2 * args_size(args_model(args@)) + 1, args@.len() + 2,
    {
        if str_eq(name, "materialize_remote") || str_eq(name, "materialize") || str_eq(name, "fetch_remote") || str_eq(name, "collect_remote") {
            return Some(self.b_materialize_remote(name, args, amb, line));
        }
        if str_eq(name, "checkpoint_remote") || str_eq(name, "checkpoint_job") || str_eq(name, "checkpoint_remote_job") {
            return Some(self.b_checkpoint_remote(name, args, amb, line));
        }
        if str_eq(name, "restore_remote") || str_eq(name, "restore_job") || str_eq(name, "restore_remote_checkpoint") {
            return Some(self.b_restore_remote(name, args, amb, line));
        }
        if str_eq(name, "live_migrate") || str_eq(name, "live_migrate_remote") {
            return Some(self.b_live_migrate(name, args, amb, line));
        }
        if str_eq(name, "schedule") || str_eq(name, "schedule_on") {
            return Some(self.b_schedule(name, args, amb, line));
        }
        if str_eq(name, "migrate") {
            return Some(self.b_migrate(name, args, amb, line));
        }
        if str_eq(name, "equals") || str_eq(name, "eq") {
            return Some(self.b_equals(name, args, amb, line));
        }
        if str_eq(name, "eq_value") {
            return Some(self.b_eq_value(name, args, amb, line));
        }
        if str_eq(name, "eq_proof") {
            return Some(self.b_eq_proof(name, args, amb, line));
        }
        if str_eq(name, "eq_syntax") {
            return Some(self.b_eq_syntax(name, args, amb, line));
        }
        if str_eq(name, "print_symbolic") {
            return Some(self.b_print_symbolic(name, args, amb, line));
        }
        if str_eq(name, "print_decimal") {
            return Some(self.b_print_decimal(name, args, amb, line));
        }
        None
    }

    pub(crate) fn call_group6(&self, name: &str, args: &Vec<Expr>, amb: &str, line: usize) -> (r: Option<Result<Passport, Diagnostic>>)
        ensures
            call_group6_spec(self@.env, name@, args_model(args@), amb@, line) == (match r {
            Some(x) => Some(passport_result(x)),
            None => None::<Result<PassportV, DiagnosticV>>,
            }),
        decreases 2 * args_size(args_model(args@)) + 1, args@.len() + 2,
    {
        if str_eq(name, "print_text") {
            return Some(self.b_print_text(name, args, amb, line));
        }
        if str_eq(name, "inspect_ast") {
            return Some(self.b_inspect_ast(name, args, amb, line));
        }
        if str_eq(name, "read") || str_eq(name, "read_stdin") {
            return Some(self.b_read(name, args, amb, line));
        }
        if str_eq(name, "parse_nat") {
            return Some(self.b_parse_nat(name, args, amb, line));
        }
        if str_eq(name, "axiom_true") || str_eq(name, "assume_true") {
            return Some(self.b_axiom_true(name, args, amb, line));
        }
        if str_eq(name, "axiom_nat") || str_eq(name, "assume_nat") {
            return Some(self.b_axiom_nat(name, args, amb, line));
        }
        if str_eq(name, "unsafe_nat") || str_eq(name, "unsafe_assume_nat") {
            return Some(self.b_unsafe_nat(name, args, amb, line));
        }
        if str_eq(name, "read_nat") {
            return Some(self.b_read_nat(name, args, amb, line));
        }
        if str_eq(name, "require") {
            return Some(self.b_require(name, args, amb, line));
        }
        if str_eq(name, "prove") {
            return Some(self.b_prove(name, args, amb, line));
        }
        if str_eq(name, "prop_true") || str_eq(name, "true_prop") || str_eq(name, "proposition_true") {
            return Some(self.b_prop_true(name, args, amb, line));
        }
        if str_eq(name, "prop_gt") || str_eq(name, "gt_prop") {
            return Some(self.b_prop_gt(name, args, amb, line));
        }
        None
    }

    pub(crate) fn call_group7(&self, name: &str, args: &Vec<Expr>, amb: &str, line: usize) -> (r: Option<Result<Passport, Diagnostic>>)
        ensures
            call_group7_spec(self@.env, name@, args_model(args@), amb@, line) == (match r {
            Some(x) => Some(passport_result(x)),
            None => None::<Result<PassportV, DiagnosticV>>,
            }),
        decreases 2 * args_size(args_model(args@)) + 1, args@.len() + 2,
    {
        if str_eq(name, "provable_of") || str_eq(name, "provability_of") || str_eq(name, "provable") {
            return Some(self.b_provable_of(name, args, amb, line));
        }
        if str_eq(name, "truth_from_provable") || str_eq(name, "assert_truth") || str_eq(name, "truth") {
            return Some(self.b_truth_from_provable(name, args, amb, line));
        }
        if str_eq(name, "truth_from_provable_axiom") || str_eq(name, "assume_truth_from_provable") {
            return Some(self.b_truth_from_provable_axiom(name, args, amb, line));
        }
        if str_eq(name, "consistency_claim") || str_eq(name, "consistency_of_current") || str_eq(name, "consistent_current") {
            return Some(self.b_consistency_claim(name, args, amb, line));
        }
        if str_eq(name, "prove_consistency") || str_eq(name, "prove_own_consistency") {
            return Some(self.b_prove_consistency(name, args, amb, line));
        }
        if str_eq(name, "consistency_axiom") || str_eq(name, "assume_consistency") || str_eq(name, "consistency_from_axiom") {
            return Some(self.b_consistency_axiom(name, args, amb, line));
        }
        if str_eq(name, "reflection_claim") || str_eq(name, "reflection_of") {
            return Some(self.b_reflection_claim(name, args, amb, line));
        }
        if str_eq(name, "reflection_axiom") || str_eq(name, "assume_reflection") {
            return Some(self.b_reflection_axiom(name, args, amb, line));
        }
        if str_eq(name, "self_reference") || str_eq(name, "self_reference_claim") {
            return Some(self.b_self_reference(name, args, amb, line));
        }
        if str_eq(name, "godel_sentence") {
            return Some(self.b_godel_sentence(name, args, amb, line));
        }
        if str_eq(name, "self_reference_axiom") || str_eq(name, "assume_self_reference") {
            return Some(self.b_self_reference_axiom(name, args, amb, line));
        }
        if str_eq(name, "reflect_provable") || str_eq(name, "prove_self_reference") || str_eq(name, "truth_of_self_reference") || str_eq(name, "truth_of_self") || str_eq(name, "says_unprovable_self") || str_eq(name, "liar_sentence") || str_eq(name, "truth_of_own_truth") {
            return Some(self.b_reflect_provable(name, args, amb, line));
        }
        None
    }

    pub(crate) fn call_group8(&self, name: &str, args: &Vec<Expr>, amb: &str, line: usize) -> (r: Option<Result<Passport, Diagnostic>>)
        ensures
            call_group8_spec(self@.env, name@, args_model(args@), amb@, line) == (match r {
            Some(x) => Some(passport_result(x)),
            None => None::<Result<PassportV, DiagnosticV>>,
            }),
        decreases 2 * args_size(args_model(args@)) + 1, args@.len() + 2,
    {
        if str_eq(name, "proof_true") || str_eq(name, "true_intro") {
            return Some(self.b_proof_true(name, args, amb, line));
        }
        if str_eq(name, "proof_gt") || str_eq(name, "gt_intro") {
            return Some(self.b_proof_gt(name, args, amb, line));
        }
        if str_eq(name, "check_proof") || str_eq(name, "kernel_check") || str_eq(name, "verify_proof") {
            return Some(self.b_check_proof(name, args, amb, line));
        }
        if str_eq(name, "fake_proof") || str_eq(name, "unchecked_proof") || str_eq(name, "bare_proof") {
            return Some(self.b_fake_proof(name, args, amb, line));
        }
        if str_eq(name, "quote") {
            return Some(self.b_quote(name, args, amb, line));
        }
        if str_eq(name, "transport") {
            return Some(self.b_transport(name, args, amb, line));
        }
        if str_eq(name, "soundness") {
            return Some(self.b_soundness(name, args, amb, line));
        }
        None
    }

}

} // verus!

//! ALTER TABLE and its actions: columns, constraints, partitions, storage and
//! security settings.
use vstd::prelude::*;
use crate::ast::{
    AlterColumnAction, AlterTableAction, AlterTableStatement, Expr, ModifyColumnInfo, PartitionDef, ReplicaIdentity,
    StatisticsOpKind, TableConstraint,
};
use crate::error::ParserError;
use crate::parser::alter::{name_at, string_at, update_index_at};
use crate::parser::alter_index::to_name_at;
use crate::parser::ddl::{agrees, has_if_exists, if_exists_end, if_not_exists_end, kw_at, lemma_object_name_bounds};
use crate::parser::objects::dict_options_at;
use crate::parser::options::{options_view, OptionView};
use crate::parser::table::{
    after, column_def_at, column_list_from, column_matches, columns_match, paren_idents_at, partition_defs_view, ColumnView,
    starts_table_constraint, table_constraint_at, table_constraint_matches, PartitionDefView,
    TableConstraintView,
};
use crate::parser::create::ident_list_at;
use crate::parser::expr::{
    custom_mods_match, ends_operand, has_leaf, is_type_keyword, leaf_end, named_type_mods_at, leaf_value, named_type_at, data_type_at, op_expr_at, opt_text, tree_matches,
    type_at, type_view, OpTree, TypeView,
};
use crate::parser::{ident_text, ident_word_at, keyword_at, object_name_at, strings_view, tok_at, Outcome, Parser};
use crate::token::{keyword_text, Keyword, Token};

verus! {

/// The actions that an ALTER TABLE action starting at `i` can be.
pub open spec fn action_family(toks: Seq<Token>, i: int, a: AlterTableAction) -> bool {
    match keyword_at(toks, i) {
        Some(Keyword::ADD_P) => a is AddColumns || a is StatisticsOp || a is AddPartition || a is AddSubPartition
            || a is AddConstraintUsingIndex || a is AddConstraint || a is AddColumn || a is AddNode,
        Some(Keyword::DROP) => a is DropPartitionFor || a is DropPartition || a is DropSubPartition || a is DropColumn
            || a is DropConstraint || a is DeleteNode,
        Some(Keyword::ALTER) => a is AlterColumnStatistics || a is AlterColumnStorage || a is AlterColumn,
        Some(Keyword::RENAME) => a is RenameSubPartition || a is RenamePartitionFor || a is RenamePartition
            || a is RenameColumn || a is DropConstraint || a is RenameTo,
        Some(Keyword::OWNER) => a is OwnerTo,
        Some(Keyword::SET) => a is SetSchema || a is SetTablespace || a is SetCompress || a is SetWithoutCluster
            || a is SetWithoutOids || a is SetOptions,
        Some(Keyword::TRUNCATE) => a is TruncateSubPartition || a is TruncatePartition,
        Some(Keyword::MERGE) => a is MergeSubPartitions || a is MergePartitions,
        Some(Keyword::SPLIT) => a is SplitSubPartition || a is SplitPartitionFor || a is SplitPartition,
        Some(Keyword::EXCHANGE) => a is ExchangeSubPartition || a is ExchangePartition,
        Some(Keyword::RESET) => a is ResetOptions,
        Some(Keyword::MOVE) => a is MoveSubPartition || a is MovePartitionFor || a is MovePartition,
        Some(Keyword::MODIFY_P) => a is ModifyColumns || a is AlterColumn,
        Some(Keyword::ENABLE_P) => a is EnableRowMovement || a is EnableRowLevelSecurity || a is EnableTrigger
            || (a matches AlterTableAction::SetRule { enable, .. } && enable) || a is StatisticsOp,
        Some(Keyword::DISABLE_P) => a is DisableRowMovement || a is DisableRowLevelSecurity || a is DisableTrigger
            || (a matches AlterTableAction::SetRule { enable, .. } && !enable) || a is StatisticsOp,
        Some(Keyword::CHARSET) | Some(Keyword::CHARACTER) => a is SetCharset,
        Some(Keyword::VALIDATE) => a is ValidateConstraint,
        Some(Keyword::INHERIT) => a is Inherit,
        Some(Keyword::NO) => a is NoInherit || a is NoForceRowLevelSecurity,
        Some(Keyword::CLUSTER) => a is ClusterOn,
        Some(Keyword::REPLICA) => a is ReplicaIdentity,
        Some(Keyword::NOCOMPRESS) => a is SetNoCompress,
        Some(Keyword::FORCE) => a is ForceRowLevelSecurity,
        Some(Keyword::NOT) => a is NotOfType,
        Some(Keyword::OF) => a is OfType,
        Some(Keyword::COMMENT) => a is SetComment,
        Some(Keyword::ENCRYPTION) => a is EncryptionKeyRotation,
        Some(Keyword::DELETE_P) => a is StatisticsOp,
        _ => if ident_word_at(toks, i, "ILM"@) {
            a is IlmEnablePolicy || a is IlmDisablePolicy || a is IlmDeletePolicy || a is IlmAddPolicy
        } else if ident_word_at(toks, i, "GSIWAITALL"@) {
            a is GsiWaitAll
        } else {
            false
        },
    }
}

/// The keywords that start an ALTER TABLE action.
pub open spec fn is_action_keyword(k: Keyword) -> bool {
    k == Keyword::ADD_P || k == Keyword::DROP || k == Keyword::ALTER || k == Keyword::RENAME || k == Keyword::OWNER
        || k == Keyword::SET || k == Keyword::TRUNCATE || k == Keyword::MERGE || k == Keyword::SPLIT
        || k == Keyword::EXCHANGE || k == Keyword::RESET || k == Keyword::MOVE || k == Keyword::MODIFY_P
        || k == Keyword::ENABLE_P || k == Keyword::DISABLE_P || k == Keyword::CHARSET || k == Keyword::CHARACTER
        || k == Keyword::VALIDATE || k == Keyword::INHERIT || k == Keyword::NO || k == Keyword::CLUSTER
        || k == Keyword::REPLICA || k == Keyword::NOCOMPRESS || k == Keyword::FORCE || k == Keyword::NOT
        || k == Keyword::OF || k == Keyword::COMMENT || k == Keyword::ENCRYPTION || k == Keyword::DELETE_P
}

/// Whether an action can start at `i`.
pub open spec fn starts_action(toks: Seq<Token>, i: int) -> bool {
    ||| keyword_at(toks, i) matches Some(k) && is_action_keyword(k)
    ||| ident_word_at(toks, i, "ILM"@)
    ||| ident_word_at(toks, i, "GSIWAITALL"@)
}

/// The ALTER TABLE actions made of names, keywords and literals only, as plain values.
pub enum NameActionView {
    RenameSubPartition { old_name: Seq<char>, new_name: Seq<char> },
    RenamePartition { old_name: Seq<char>, new_name: Seq<char> },
    RenameColumn { old: Seq<char>, new: Seq<char> },
    RenameTo(Seq<char>),
    OwnerTo(Seq<char>),
    SetSchema(Seq<char>),
    SetTablespace(Seq<char>),
    SetCompress,
    SetWithoutCluster,
    SetWithoutOids,
    SetOptions(Seq<OptionView>),
    DropPartition { name: Seq<char>, if_exists: bool, update_global_index: bool, update_distributed_global_index: Option<bool> },
    DropSubPartition { name: Seq<char>, if_exists: bool },
    DropColumn { name: Seq<char>, if_exists: bool, cascade: bool },
    DropConstraint { name: Seq<char>, if_exists: bool, cascade: bool },
    DeleteNode(Seq<char>),
    ResetOptions(Seq<Seq<char>>),
    ValidateConstraint(Seq<char>),
    ClusterOn(Seq<char>),
    SetNoCompress,
    SetComment(Seq<char>),
    EncryptionKeyRotation,
    GsiWaitAll,
    StatisticsOp { op: StatisticsOpKind, columns: Seq<Seq<char>> },
    TruncateSubPartition { name: Seq<char>, cascade: bool },
    TruncatePartition { name: Seq<char>, cascade: bool, update_global_index: bool, update_distributed_global_index: Option<bool> },
    MergeSubPartitions { names: Seq<Seq<char>>, into_name: Seq<char> },
    MergePartitions { names: Seq<Seq<char>>, into_name: Seq<char>, update_global_index: bool, update_distributed_global_index: Option<bool> },
    ReplicaIdentity(ReplicaView),
    IlmEnablePolicy,
    IlmDisablePolicy,
    IlmDeletePolicy,
    NoInherit(Seq<Seq<char>>),
    NoForceRowLevelSecurity,
    SetCharset { charset: Seq<char>, collation: Option<Seq<char>> },
    ExchangeSubPartition { name: Seq<char>, table: Seq<Seq<char>> },
    ExchangePartition {
        name: Seq<char>,
        table: Seq<Seq<char>>,
        update_global_index: bool,
        update_distributed_global_index: Option<bool>,
        with_validation: Option<bool>,
        verbose: bool,
    },
    MoveSubPartition { name: Seq<char>, tablespace: Seq<char> },
    MovePartition { name: Seq<char>, tablespace: Seq<char> },
    EnableRowMovement,
    DisableRowMovement,
    EnableRowLevelSecurity,
    DisableRowLevelSecurity,
    EnableTrigger(Option<Seq<char>>),
    DisableTrigger(Option<Seq<char>>),
    SetRule { enable: bool, mode: Option<Seq<char>>, name: Seq<char> },
}

/// A replica identity as plain values.
pub enum ReplicaView {
    Default,
    Nothing,
    Full,
    Index(Seq<char>),
}

/// The view of an action of that kind; `None` for the others.
pub open spec fn name_action_view(a: AlterTableAction) -> Option<NameActionView> {
    match a {
        AlterTableAction::RenameSubPartition { old_name, new_name } => Some(NameActionView::RenameSubPartition { old_name: old_name@, new_name: new_name@ }),
        AlterTableAction::RenamePartition { old_name, new_name } => Some(NameActionView::RenamePartition { old_name: old_name@, new_name: new_name@ }),
        AlterTableAction::RenameColumn { old, new } => Some(NameActionView::RenameColumn { old: old@, new: new@ }),
        AlterTableAction::RenameTo { new_name } => Some(NameActionView::RenameTo(new_name@)),
        AlterTableAction::OwnerTo { owner } => Some(NameActionView::OwnerTo(owner@)),
        AlterTableAction::SetSchema { schema } => Some(NameActionView::SetSchema(schema@)),
        AlterTableAction::SetTablespace { tablespace } => Some(NameActionView::SetTablespace(tablespace@)),
        AlterTableAction::SetCompress => Some(NameActionView::SetCompress),
        AlterTableAction::SetWithoutCluster => Some(NameActionView::SetWithoutCluster),
        AlterTableAction::SetWithoutOids => Some(NameActionView::SetWithoutOids),
        AlterTableAction::SetOptions { options } => Some(NameActionView::SetOptions(options_view(options@))),
        AlterTableAction::DropPartition { name, if_exists, update_global_index, update_distributed_global_index } =>
            Some(NameActionView::DropPartition { name: name@, if_exists, update_global_index, update_distributed_global_index }),
        AlterTableAction::DropSubPartition { name, if_exists } => Some(NameActionView::DropSubPartition { name: name@, if_exists }),
        AlterTableAction::DropColumn { name, if_exists, cascade } => Some(NameActionView::DropColumn { name: name@, if_exists, cascade }),
        AlterTableAction::DropConstraint { name, if_exists, cascade } => Some(NameActionView::DropConstraint { name: name@, if_exists, cascade }),
        AlterTableAction::DeleteNode { node_name } => Some(NameActionView::DeleteNode(node_name@)),
        AlterTableAction::ResetOptions { options } => Some(NameActionView::ResetOptions(strings_view(options@))),
        AlterTableAction::ValidateConstraint { name } => Some(NameActionView::ValidateConstraint(name@)),
        AlterTableAction::ClusterOn { index_name } => Some(NameActionView::ClusterOn(index_name@)),
        AlterTableAction::SetNoCompress => Some(NameActionView::SetNoCompress),
        AlterTableAction::SetComment { comment } => Some(NameActionView::SetComment(comment@)),
        AlterTableAction::EncryptionKeyRotation => Some(NameActionView::EncryptionKeyRotation),
        AlterTableAction::GsiWaitAll => Some(NameActionView::GsiWaitAll),
        AlterTableAction::StatisticsOp { op, columns } => Some(NameActionView::StatisticsOp { op, columns: strings_view(columns@) }),
        AlterTableAction::TruncateSubPartition { name, cascade } => Some(NameActionView::TruncateSubPartition { name: name@, cascade }),
        AlterTableAction::TruncatePartition { name, cascade, update_global_index, update_distributed_global_index } =>
            Some(NameActionView::TruncatePartition { name: name@, cascade, update_global_index, update_distributed_global_index }),
        AlterTableAction::MergeSubPartitions { names, into_name } =>
            Some(NameActionView::MergeSubPartitions { names: strings_view(names@), into_name: into_name@ }),
        AlterTableAction::MergePartitions { names, into_name, update_global_index, update_distributed_global_index } =>
            Some(NameActionView::MergePartitions {
                names: strings_view(names@),
                into_name: into_name@,
                update_global_index,
                update_distributed_global_index,
            }),
        AlterTableAction::ReplicaIdentity(ri) => Some(NameActionView::ReplicaIdentity(match ri {
            ReplicaIdentity::Default => ReplicaView::Default,
            ReplicaIdentity::Nothing => ReplicaView::Nothing,
            ReplicaIdentity::Full => ReplicaView::Full,
            ReplicaIdentity::Index { name } => ReplicaView::Index(name@),
        })),
        AlterTableAction::IlmEnablePolicy => Some(NameActionView::IlmEnablePolicy),
        AlterTableAction::IlmDisablePolicy => Some(NameActionView::IlmDisablePolicy),
        AlterTableAction::IlmDeletePolicy => Some(NameActionView::IlmDeletePolicy),
        AlterTableAction::NoInherit { parent } => Some(NameActionView::NoInherit(strings_view(parent@))),
        AlterTableAction::NoForceRowLevelSecurity => Some(NameActionView::NoForceRowLevelSecurity),
        AlterTableAction::ExchangeSubPartition { name, table } =>
            Some(NameActionView::ExchangeSubPartition { name: name@, table: strings_view(table@) }),
        AlterTableAction::ExchangePartition {
            name,
            table,
            update_global_index,
            update_distributed_global_index,
            with_validation,
            verbose,
        } => Some(NameActionView::ExchangePartition {
            name: name@,
            table: strings_view(table@),
            update_global_index,
            update_distributed_global_index,
            with_validation,
            verbose,
        }),
        AlterTableAction::MoveSubPartition { name, tablespace } =>
            Some(NameActionView::MoveSubPartition { name: name@, tablespace: tablespace@ }),
        AlterTableAction::MovePartition { name, tablespace } =>
            Some(NameActionView::MovePartition { name: name@, tablespace: tablespace@ }),
        AlterTableAction::EnableRowMovement => Some(NameActionView::EnableRowMovement),
        AlterTableAction::DisableRowMovement => Some(NameActionView::DisableRowMovement),
        AlterTableAction::EnableRowLevelSecurity => Some(NameActionView::EnableRowLevelSecurity),
        AlterTableAction::DisableRowLevelSecurity => Some(NameActionView::DisableRowLevelSecurity),
        AlterTableAction::EnableTrigger { name } => Some(NameActionView::EnableTrigger(opt_text(name))),
        AlterTableAction::DisableTrigger { name } => Some(NameActionView::DisableTrigger(opt_text(name))),
        AlterTableAction::SetRule { enable, mode, name } =>
            Some(NameActionView::SetRule { enable, mode: opt_text(mode), name: name@ }),
        AlterTableAction::SetCharset { charset, collation } =>
            Some(NameActionView::SetCharset { charset: charset@, collation: opt_text(collation) }),
        _ => None,
    }
}

/// `old TO new` at `j`.
pub open spec fn rename_pair_at(toks: Seq<Token>, j: int) -> Outcome<(Seq<char>, Seq<char>)> {
    match name_at(toks, j) {
        Err(e) => Err(e),
        Ok((a, k)) => match to_name_at(toks, k) {
            Err(e) => Err(e),
            Ok((b, m)) => Ok(((a, b), m)),
        },
    }
}

/// `RENAME ...` at `i`; `None` for `RENAME PARTITION FOR (value)`.
pub open spec fn rename_action_at(toks: Seq<Token>, i: int) -> Option<Outcome<NameActionView>> {
    if kw_at(toks, i + 1, Keyword::SUBPARTITION) {
        Some(match rename_pair_at(toks, i + 2) {
            Err(e) => Err(e),
            Ok(((a, b), m)) => Ok((NameActionView::RenameSubPartition { old_name: a, new_name: b }, m)),
        })
    } else if kw_at(toks, i + 1, Keyword::PARTITION) {
        if kw_at(toks, i + 2, Keyword::FOR) {
            None
        } else {
            Some(match rename_pair_at(toks, i + 2) {
                Err(e) => Err(e),
                Ok(((a, b), m)) => Ok((NameActionView::RenamePartition { old_name: a, new_name: b }, m)),
            })
        }
    } else if kw_at(toks, i + 1, Keyword::COLUMN) {
        Some(match rename_pair_at(toks, i + 2) {
            Err(e) => Err(e),
            Ok(((a, b), m)) => Ok((NameActionView::RenameColumn { old: a, new: b }, m)),
        })
    } else if kw_at(toks, i + 1, Keyword::CONSTRAINT) {
        Some(match rename_pair_at(toks, i + 2) {
            Err(e) => Err(e),
            Ok((_, m)) => Ok((NameActionView::DropConstraint { name: Seq::empty(), if_exists: false, cascade: false }, m)),
        })
    } else {
        Some(match to_name_at(toks, i + 1) {
            Err(e) => Err(e),
            Ok((n, m)) => Ok((NameActionView::RenameTo(n), m)),
        })
    }
}

/// `[IF EXISTS] name` at `j`.
pub open spec fn if_exists_name_at(toks: Seq<Token>, j: int) -> Outcome<(bool, Seq<char>)> {
    match name_at(toks, if_exists_end(toks, j)) {
        Err(e) => Err(e),
        Ok((n, m)) => Ok(((has_if_exists(toks, j), n), m)),
    }
}

/// `DROP ...` at `i`; `None` for `DROP PARTITION [IF EXISTS] FOR (value)`.
pub open spec fn drop_action_at(toks: Seq<Token>, i: int) -> Option<Outcome<NameActionView>> {
    if kw_at(toks, i + 1, Keyword::PARTITION) {
        let j = if_exists_end(toks, i + 2);
        if kw_at(toks, j, Keyword::FOR) {
            None
        } else {
            Some(match name_at(toks, j) {
                Err(e) => Err(e),
                Ok((name, k)) => match update_index_at(toks, k) {
                    Err(e) => Err(e),
                    Ok(((g, d), m)) => Ok((NameActionView::DropPartition {
                        name,
                        if_exists: has_if_exists(toks, i + 2),
                        update_global_index: g,
                        update_distributed_global_index: d,
                    }, m)),
                },
            })
        }
    } else if kw_at(toks, i + 1, Keyword::SUBPARTITION) {
        Some(match if_exists_name_at(toks, i + 2) {
            Err(e) => Err(e),
            Ok(((ie, name), m)) => Ok((NameActionView::DropSubPartition { name, if_exists: ie }, m)),
        })
    } else if kw_at(toks, i + 1, Keyword::COLUMN) || kw_at(toks, i + 1, Keyword::CONSTRAINT) {
        Some(match if_exists_name_at(toks, i + 2) {
            Err(e) => Err(e),
            Ok(((ie, name), m)) => {
                let cascade = kw_at(toks, m, Keyword::CASCADE);
                let end = if cascade { m + 1 } else { m };
                if kw_at(toks, i + 1, Keyword::COLUMN) {
                    Ok((NameActionView::DropColumn { name, if_exists: ie, cascade }, end))
                } else {
                    Ok((NameActionView::DropConstraint { name, if_exists: ie, cascade }, end))
                }
            },
        })
    } else if kw_at(toks, i + 1, Keyword::NODE) {
        Some(match name_at(toks, i + 2) {
            Err(e) => Err(e),
            Ok((n, m)) => Ok((NameActionView::DeleteNode(n), m)),
        })
    } else {
        Some(Err((i + 1, "COLUMN, CONSTRAINT, or NODE"@)))
    }
}

/// `SET ...` at `i`.
pub open spec fn set_action_at(toks: Seq<Token>, i: int) -> Outcome<NameActionView> {
    if kw_at(toks, i + 1, Keyword::SCHEMA) {
        match name_at(toks, i + 2) {
            Err(e) => Err(e),
            Ok((n, m)) => Ok((NameActionView::SetSchema(n), m)),
        }
    } else if kw_at(toks, i + 1, Keyword::TABLESPACE) {
        match name_at(toks, i + 2) {
            Err(e) => Err(e),
            Ok((n, m)) => Ok((NameActionView::SetTablespace(n), m)),
        }
    } else if kw_at(toks, i + 1, Keyword::COMPRESS) {
        Ok((NameActionView::SetCompress, i + 2))
    } else if kw_at(toks, i + 1, Keyword::WITHOUT) {
        if kw_at(toks, i + 2, Keyword::CLUSTER) {
            Ok((NameActionView::SetWithoutCluster, i + 3))
        } else if kw_at(toks, i + 2, Keyword::OIDS) {
            Ok((NameActionView::SetWithoutOids, i + 3))
        } else {
            Err((i + 2, "OIDS"@))
        }
    } else if tok_at(toks, i + 1) is LParen {
        match dict_options_at(toks, i + 2, Seq::empty()) {
            Err(e) => Err(e),
            Ok((o, m)) => Ok((NameActionView::SetOptions(o), m)),
        }
    } else {
        Err((i + 1, "SCHEMA, TABLESPACE, COMPRESS, WITHOUT OIDS, or (...)"@))
    }
}

/// The ALTER TABLE action at `i` when it is made of names, keywords and literals only;
/// `None` for the other actions.
pub open spec fn name_action_at(toks: Seq<Token>, i: int) -> Option<Outcome<NameActionView>> {
    match keyword_at(toks, i) {
        Some(Keyword::RENAME) => rename_action_at(toks, i),
        Some(Keyword::DROP) => drop_action_at(toks, i),
        Some(Keyword::SET) => Some(set_action_at(toks, i)),
        Some(Keyword::OWNER) => Some(match to_name_at(toks, i + 1) {
            Err(e) => Err(e),
            Ok((n, m)) => Ok((NameActionView::OwnerTo(n), m)),
        }),
        Some(Keyword::RESET) => Some(if !(tok_at(toks, i + 1) is LParen) {
            Err((i + 1, "(option, ...)"@))
        } else {
            match paren_idents_at(toks, i + 1) {
                Err(e) => Err(e),
                Ok((v, m)) => Ok((NameActionView::ResetOptions(v), m)),
            }
        }),
        Some(Keyword::VALIDATE) => Some(if !kw_at(toks, i + 1, Keyword::CONSTRAINT) {
            Err((i + 1, "CONSTRAINT"@))
        } else {
            match name_at(toks, i + 2) {
                Err(e) => Err(e),
                Ok((n, m)) => Ok((NameActionView::ValidateConstraint(n), m)),
            }
        }),
        Some(Keyword::CLUSTER) => Some(if !kw_at(toks, i + 1, Keyword::ON) {
            Err((i + 1, "ON"@))
        } else {
            match name_at(toks, i + 2) {
                Err(e) => Err(e),
                Ok((n, m)) => Ok((NameActionView::ClusterOn(n), m)),
            }
        }),
        Some(Keyword::NOCOMPRESS) => Some(Ok((NameActionView::SetNoCompress, i + 1))),
        Some(Keyword::COMMENT) => Some({
            let j = if tok_at(toks, i + 1) is Eq { i + 2 } else { i + 1 };
            match string_at(toks, j) {
                Err(e) => Err(e),
                Ok((c, m)) => Ok((NameActionView::SetComment(c), m)),
            }
        }),
        Some(Keyword::ENCRYPTION) => Some(if !kw_at(toks, i + 1, Keyword::KEY) {
            Err((i + 1, "KEY"@))
        } else if !kw_at(toks, i + 2, Keyword::ROTATION) {
            Err((i + 2, "ROTATION"@))
        } else {
            Ok((NameActionView::EncryptionKeyRotation, i + 3))
        }),
        None => if ident_word_at(toks, i, "GSIWAITALL"@) && !ident_word_at(toks, i, "ILM"@) {
            Some(Ok((NameActionView::GsiWaitAll, i + 1)))
        } else {
            None
        },
        _ => None,
    }
}


/// An ALTER COLUMN action as plain values; a new default is given by its expression tree.
pub enum ColActionView {
    SetType(TypeView),
    SetDefault(OpTree),
    SetNotNull,
    DropDefault,
    DropNotNull,
}

/// The new type of `TYPE t` with the type at `j`, where `data_type_at` states it.
pub open spec fn type_action_at(toks: Seq<Token>, j: int) -> Option<Outcome<ColActionView>> {
    match data_type_at(toks, j) {
        Some(Ok((t, q))) => Some(Ok((ColActionView::SetType(t), q))),
        Some(Err(e)) => Some(Err(e)),
        None => None,
    }
}

/// The column action at `i`: `TYPE t`, `SET DATA TYPE t`, `SET DEFAULT e`, `SET NOT NULL`,
/// `DROP DEFAULT`, `DROP NOT NULL`. `None` where `data_type_at` does not state the type, or
/// the default is not an expression of operands and infix operators (`op_expr_at`).
pub open spec fn alter_column_action_at(toks: Seq<Token>, i: int) -> Option<Outcome<ColActionView>> {
    if kw_at(toks, i, Keyword::TYPE_P) {
        type_action_at(toks, i + 1)
    } else if kw_at(toks, i, Keyword::SET) {
        if kw_at(toks, i + 1, Keyword::DATA_P) {
            if !kw_at(toks, i + 2, Keyword::TYPE_P) {
                Some(Err((i + 2, keyword_text(Keyword::TYPE_P))))
            } else {
                type_action_at(toks, i + 3)
            }
        } else if kw_at(toks, i + 1, Keyword::DEFAULT) {
            match op_expr_at(toks, i + 2, 0) {
                Some((t, q)) => Some(Ok((ColActionView::SetDefault(t), q))),
                None => None,
            }
        } else if kw_at(toks, i + 1, Keyword::NOT) {
            Some(if kw_at(toks, i + 2, Keyword::NULL_P) {
                Ok((ColActionView::SetNotNull, i + 3))
            } else {
                Err((i + 2, keyword_text(Keyword::NULL_P)))
            })
        } else {
            Some(Err((i + 1, "ALTER COLUMN SET option"@)))
        }
    } else if kw_at(toks, i, Keyword::DROP) {
        if kw_at(toks, i + 1, Keyword::DEFAULT) {
            Some(Ok((ColActionView::DropDefault, i + 2)))
        } else if kw_at(toks, i + 1, Keyword::NOT) {
            Some(if kw_at(toks, i + 2, Keyword::NULL_P) {
                Ok((ColActionView::DropNotNull, i + 3))
            } else {
                Err((i + 2, keyword_text(Keyword::NULL_P)))
            })
        } else {
            Some(Err((i + 1, "DROP DEFAULT or DROP NOT NULL"@)))
        }
    } else {
        Some(Err((i, "ALTER COLUMN action"@)))
    }
}

/// `a` is the column action that `v` describes.
pub open spec fn col_action_matches(toks: Seq<Token>, a: AlterColumnAction, v: ColActionView) -> bool {
    match v {
        ColActionView::SetType(t) => a is SetDataType && type_view(a->SetDataType_0) == t,
        ColActionView::SetDefault(t) => a is SetDefault && tree_matches(toks, a->SetDefault_0, t),
        ColActionView::SetNotNull => a is SetNotNull,
        ColActionView::DropDefault => a is DropDefault,
        ColActionView::DropNotNull => a is DropNotNull,
    }
}

/// An ALTER TABLE action as plain values: one made of names, keywords and literals, a
/// column action, an added table constraint, or an added column.
pub enum ActionView {
    Named(NameActionView),
    AlterColumn(Seq<char>, ColActionView),
    AddConstraint(Option<Seq<char>>, TableConstraintView),
    AddColumn(ColumnView),
}

/// The action at `i`, where its spec functions state it: `name_action_at`,
/// `ALTER [COLUMN] name <alter_column_action_at>`, `ADD [CONSTRAINT name] <table constraint>`,
/// `ADD [COLUMN] [IF NOT EXISTS] <column_def_at>`; `None` for the others.
pub open spec fn single_action_at(toks: Seq<Token>, i: int) -> Option<Outcome<ActionView>> {
    match name_action_at(toks, i) {
        Some(Ok((v, q))) => Some(Ok((ActionView::Named(v), q))),
        Some(Err(e)) => Some(Err(e)),
        None => if kw_at(toks, i, Keyword::ALTER) {
            let j = if kw_at(toks, i + 1, Keyword::COLUMN) { i + 2 } else { i + 1 };
            match ident_text(tok_at(toks, j)) {
                None => Some(Err((j, "identifier"@))),
                Some(n) => if kw_at(toks, j + 1, Keyword::SET) && (kw_at(toks, j + 2, Keyword::STATISTICS)
                    || kw_at(toks, j + 2, Keyword::STORAGE)) {
                    None
                } else {
                    match alter_column_action_at(toks, j + 1) {
                        Some(Ok((a, q))) => Some(Ok((ActionView::AlterColumn(n, a), q))),
                        Some(Err(e)) => Some(Err(e)),
                        None => None,
                    }
                },
            }
        } else if kw_at(toks, i, Keyword::ADD_P) {
            let j = i + 1;
            if tok_at(toks, j) is LParen || kw_at(toks, j, Keyword::STATISTICS) || kw_at(toks, j, Keyword::NODE)
                || kw_at(toks, j, Keyword::SUBPARTITION) || kw_at(toks, j, Keyword::PARTITION) {
                None
            } else {
                let k = if_not_exists_end(toks, if kw_at(toks, j, Keyword::COLUMN) { j + 1 } else { j });
                if starts_table_constraint(toks, k) {
                    if constraint_using_index_at(toks, k) is Some {
                        None
                    } else {
                        let name = if kw_at(toks, k, Keyword::CONSTRAINT) { ident_text(tok_at(toks, k + 1)) } else { None };
                        let c = if kw_at(toks, k, Keyword::CONSTRAINT) { k + 2 } else { k };
                        match table_constraint_at(toks, c) {
                            Some(Ok((v, q))) => Some(Ok((ActionView::AddConstraint(name, v), q))),
                            Some(Err(e)) => Some(Err(e)),
                            None => None,
                        }
                    }
                } else {
                    match column_def_at(toks, k) {
                        Some(Ok((c, q))) => Some(Ok((ActionView::AddColumn(c), q))),
                        Some(Err(e)) => Some(Err(e)),
                        None => None,
                    }
                }
            }
        } else {
            None
        },
    }
}

/// `a` is the action that `v` describes.
pub open spec fn action_matches(toks: Seq<Token>, a: AlterTableAction, v: ActionView) -> bool {
    match v {
        ActionView::Named(nv) => name_action_view(a) == Some(nv),
        ActionView::AlterColumn(n, cv) => a is AlterColumn && a->AlterColumn_name@ == n
            && col_action_matches(toks, a->AlterColumn_action, cv),
        ActionView::AddConstraint(name, tv) => a is AddConstraint && opt_text(a->AddConstraint_name) == name
            && table_constraint_matches(toks, a->AddConstraint_constraint, tv),
        ActionView::AddColumn(c) => a is AddColumn && column_matches(toks, a->AddColumn_0, c),
    }
}

/// The actions `action, ...` from `j` on, after `acc`, each stated by `single_action_at`;
/// `None` where one of them is another action.
pub open spec fn actions_from(toks: Seq<Token>, j: int, acc: Seq<ActionView>) -> Option<Outcome<Seq<ActionView>>>
    decreases toks.len() - j,
{
    match single_action_at(toks, j) {
        None => None,
        Some(Err(e)) => Some(Err(e)),
        Some(Ok((v, q))) => if q <= j || q >= toks.len() {
            Some(Ok((acc.push(v), q)))
        } else if tok_at(toks, q) is Comma {
            actions_from(toks, q + 1, acc.push(v))
        } else {
            Some(Ok((acc.push(v), q)))
        },
    }
}

/// Each action of `actions` is the one that `vs` describes at its place.
pub open spec fn actions_match(toks: Seq<Token>, actions: Seq<AlterTableAction>, vs: Seq<ActionView>) -> bool {
    actions.len() == vs.len() && forall|k: int| 0 <= k < actions.len() ==> action_matches(toks, actions[k], vs[k])
}

/// One column of `MODIFY ( name type [NOT NULL | NULL], ... )` at `j`: its name, type,
/// nullability (`Some(false)` for `NOT NULL`, `Some(true)` for `NULL`) and the modifier
/// expressions of a named type; `None` where its type is not stated by `data_type_at`.
pub open spec fn modify_item_at(toks: Seq<Token>, j: int) -> Option<Outcome<(Seq<char>, TypeView, Option<bool>, Option<Seq<OpTree>>)>> {
    match ident_text(tok_at(toks, j)) {
        None => Some(Err((j, "identifier"@))),
        Some(n) => match data_type_at(toks, j + 1) {
            None => None,
            Some(Err(e)) => Some(Err(e)),
            Some(Ok((tv, p))) => if kw_at(toks, p, Keyword::NOT) {
                if kw_at(toks, p + 1, Keyword::NULL_P) {
                    Some(Ok(((n, tv, Some(false), named_type_mods_at(toks, j + 1)), p + 2)))
                } else {
                    Some(Err((p + 1, keyword_text(Keyword::NULL_P))))
                }
            } else if kw_at(toks, p, Keyword::NULL_P) {
                Some(Ok(((n, tv, Some(true), named_type_mods_at(toks, j + 1)), p + 1)))
            } else {
                Some(Ok(((n, tv, None, named_type_mods_at(toks, j + 1)), p)))
            },
        },
    }
}

/// The columns `column, ... )` of `MODIFY` from `j` on, after `acc`.
pub open spec fn modify_list_from(toks: Seq<Token>, j: int, acc: Seq<(Seq<char>, TypeView, Option<bool>, Option<Seq<OpTree>>)>) -> Option<Outcome<Seq<(Seq<char>, TypeView, Option<bool>, Option<Seq<OpTree>>)>>>
    decreases toks.len() - j,
{
    match modify_item_at(toks, j) {
        None => None,
        Some(Err(e)) => Some(Err(e)),
        Some(Ok((v, q))) => if q <= j || q >= toks.len() {
            None
        } else if tok_at(toks, q) is Comma {
            modify_list_from(toks, q + 1, acc.push(v))
        } else if tok_at(toks, q) is RParen {
            Some(Ok((acc.push(v), q + 1)))
        } else {
            Some(Err((q, ")"@)))
        },
    }
}

/// `c` is the column that `v` describes.
pub open spec fn modify_item_matches(toks: Seq<Token>, c: ModifyColumnInfo, v: (Seq<char>, TypeView, Option<bool>, Option<Seq<OpTree>>)) -> bool {
    &&& c.name@ == v.0
    &&& type_view(c.data_type) == v.1
    &&& c.nullability == v.2
    &&& v.3 matches Some(ts) ==> custom_mods_match(toks, c.data_type, ts)
}

/// Each column of `cols` is the one that `vs` describes at its place.
pub open spec fn modify_items_match(toks: Seq<Token>, cols: Seq<ModifyColumnInfo>, vs: Seq<(Seq<char>, TypeView, Option<bool>, Option<Seq<OpTree>>)>) -> bool {
    cols.len() == vs.len() && forall|k: int| 0 <= k < cols.len() ==> modify_item_matches(toks, cols[k], vs[k])
}

/// What `MODIFY ...` at the cursor of `before` gives.
pub open spec fn modify_action_result(before: &Parser, after: &Parser, r: Result<AlterTableAction, ParserError>) -> bool {
    let toks = before.toks();
    let i = before.position();
    &&& tok_at(toks, i + 1) is LParen ==> {
        &&& ident_text(tok_at(toks, i + 2)) is None ==> r is Err && before.moved_to(after, i + 2)
            && before.reports(r->Err_0, i + 2, "identifier"@)
        &&& r is Ok ==> r->Ok_0 is ModifyColumns && r->Ok_0->ModifyColumns_0@.len() >= 1
            && Some(r->Ok_0->ModifyColumns_0@[0].name@) == ident_text(tok_at(toks, i + 2))
        &&& match modify_list_from(toks, i + 2, Seq::empty()) {
            Some(Ok((vs, q))) => r is Ok && r->Ok_0 is ModifyColumns && modify_items_match(toks, r->Ok_0->ModifyColumns_0@, vs)
                && before.moved_to(after, q),
            Some(Err((q, e))) => r is Err && before.moved_to(after, q) && before.reports(r->Err_0, q, e),
            None => true,
        }
    }
    &&& !(tok_at(toks, i + 1) is LParen) ==> match ident_text(tok_at(toks, i + 1)) {
        None => r is Err && before.moved_to(after, i + 1) && before.reports(r->Err_0, i + 1, "identifier"@),
        Some(n) => (r is Ok ==> r->Ok_0 is AlterColumn && r->Ok_0->AlterColumn_name@ == n) && if kw_at(toks, i + 2, Keyword::NOT) {
            if kw_at(toks, i + 3, Keyword::NULL_P) {
                r is Ok && r->Ok_0->AlterColumn_action is SetNotNull && before.moved_to(after, i + 4)
            } else {
                r is Err && before.moved_to(after, i + 3)
                    && before.reports(r->Err_0, i + 3, keyword_text(Keyword::NULL_P))
            }
        } else if kw_at(toks, i + 2, Keyword::NULL_P) {
            r is Ok && r->Ok_0->AlterColumn_action is DropNotNull && before.moved_to(after, i + 3)
        } else {
            match keyword_at(toks, i + 2) {
                Some(k) => is_type_keyword(k) ==> match type_at(toks, i + 2, k) {
                    Ok((t, q)) => r is Ok && r->Ok_0->AlterColumn_action is SetDataType
                        && type_view(r->Ok_0->AlterColumn_action->SetDataType_0) == t
                        && before.moved_to(after, q),
                    Err((q, e)) => r is Err && before.moved_to(after, q) && before.reports(r->Err_0, q, e),
                },
                None => true,
            }
        },
    }
}

/// What `SPLIT ...` at the cursor of `before` gives.
pub open spec fn split_action_result(before: &Parser, after: &Parser, r: Result<AlterTableAction, ParserError>) -> bool {
    let toks = before.toks();
    let i = before.position();
    &&& kw_at(toks, i + 1, Keyword::SUBPARTITION) ==> match ident_text(tok_at(toks, i + 2)) {
        None => r is Err && before.moved_to(after, i + 2) && before.reports(r->Err_0, i + 2, "identifier"@),
        Some(n) => (r is Ok ==> r->Ok_0 is SplitSubPartition && r->Ok_0->SplitSubPartition_name@ == n)
            && (!kw_at(toks, i + 3, Keyword::AT) ==> match split_list_at(toks, i + 3, true) {
                Some(Ok((defs, q))) => r is Ok && r->Ok_0->SplitSubPartition_at_value is None
                    && partition_defs_view(r->Ok_0->SplitSubPartition_into@) == defs && before.moved_to(after, q),
                Some(Err((q, e))) => r is Err && before.moved_to(after, q) && before.reports(r->Err_0, q, e),
                None => true,
            }),
    }
    &&& !kw_at(toks, i + 1, Keyword::SUBPARTITION) && !kw_at(toks, i + 1, Keyword::PARTITION) ==> r is Err
        && before.moved_to(after, i + 1) && before.reports(r->Err_0, i + 1, "PARTITION"@)
    &&& kw_at(toks, i + 1, Keyword::PARTITION) && kw_at(toks, i + 2, Keyword::FOR) && r is Ok ==> r->Ok_0 is SplitPartitionFor
    &&& kw_at(toks, i + 1, Keyword::PARTITION) && !kw_at(toks, i + 2, Keyword::FOR) ==> match ident_text(tok_at(toks, i + 2)) {
        None => r is Err && before.moved_to(after, i + 2) && before.reports(r->Err_0, i + 2, "identifier"@),
        Some(n) => (r is Ok ==> r->Ok_0 is SplitPartition && r->Ok_0->SplitPartition_name@ == n)
            && (!kw_at(toks, i + 3, Keyword::AT) ==> match split_list_at(toks, i + 3, false) {
                Some(Ok((defs, q))) => match update_index_at(toks, q) {
                    Ok(((g, d), q2)) => r is Ok && r->Ok_0->SplitPartition_at_value is None
                        && partition_defs_view(r->Ok_0->SplitPartition_into@) == defs
                        && r->Ok_0->SplitPartition_update_global_index == g
                        && r->Ok_0->SplitPartition_update_distributed_global_index == d
                        && before.moved_to(after, q2),
                    Err((q2, e)) => r is Err && before.moved_to(after, q2) && before.reports(r->Err_0, q2, e),
                },
                Some(Err((q, e))) => r is Err && before.moved_to(after, q) && before.reports(r->Err_0, q, e),
                None => true,
            }),
    }
}

/// What `ADD ...` at the cursor of `before` gives.
pub open spec fn add_action_result(before: &Parser, after: &Parser, r: Result<AlterTableAction, ParserError>) -> bool {
    let toks = before.toks();
    let i = before.position();
    let j = i + 1;
    &&& tok_at(toks, j) is LParen ==> {
        &&& ident_text(tok_at(toks, j + 1)) is None ==> r is Err && before.moved_to(after, j + 1)
            && before.reports(r->Err_0, j + 1, "identifier"@)
        &&& r is Ok ==> r->Ok_0 is AddColumns && r->Ok_0->AddColumns_0@.len() >= 1
            && Some(r->Ok_0->AddColumns_0@[0].name@) == ident_text(tok_at(toks, j + 1))
        &&& match column_list_from(toks, j + 1, Seq::empty()) {
            Some(Ok((vs, q))) => r is Ok && r->Ok_0 is AddColumns && columns_match(toks, r->Ok_0->AddColumns_0@, vs)
                && before.moved_to(after, q),
            Some(Err((q, e))) => r is Err && before.moved_to(after, q) && before.reports(r->Err_0, q, e),
            None => true,
        }
    }
    &&& kw_at(toks, j, Keyword::STATISTICS) ==> match statistics_columns_at(toks, j + 1) {
        Ok((c, q)) => (r matches Ok(AlterTableAction::StatisticsOp { op: o, columns }) && o == StatisticsOpKind::Add
            && strings_view(columns@) == c) && before.moved_to(after, q),
        Err((q, e)) => r is Err && before.moved_to(after, q) && before.reports(r->Err_0, q, e),
    }
    &&& kw_at(toks, j, Keyword::NODE) ==> match ident_text(tok_at(toks, j + 1)) {
        Some(n) => r is Ok && r->Ok_0 is AddNode && r->Ok_0->AddNode_node_name@ == n
            && before.moved_to(after, j + 2),
        None => r is Err && before.moved_to(after, j + 1) && before.reports(r->Err_0, j + 1, "identifier"@),
    }
    &&& kw_at(toks, j, Keyword::SUBPARTITION) ==> match ident_text(tok_at(toks, j + 1)) {
        Some(n) => (r is Ok ==> r->Ok_0 is AddSubPartition && r->Ok_0->AddSubPartition_name@ == n
            && r->Ok_0->AddSubPartition_partition_name@.len() == 0)
            && (!kw_at(toks, j + 2, Keyword::VALUES) ==> r is Ok && r->Ok_0->AddSubPartition_values is None
                && before.moved_to(after, j + 2)),
        None => r is Err && before.moved_to(after, j + 1) && before.reports(r->Err_0, j + 1, "identifier"@),
    }
    &&& kw_at(toks, j, Keyword::PARTITION) ==> match ident_text(tok_at(toks, j + 1)) {
        Some(n) => (r is Ok ==> r->Ok_0 is AddPartition && r->Ok_0->AddPartition_name@ == n)
            && (!kw_at(toks, j + 2, Keyword::VALUES) ==> r is Err && before.moved_to(after, j + 2)
                && before.reports(r->Err_0, j + 2, "VALUES"@)),
        None => r is Err && before.moved_to(after, j + 1) && before.reports(r->Err_0, j + 1, "identifier"@),
    }
    &&& !(tok_at(toks, j) is LParen) && !kw_at(toks, j, Keyword::STATISTICS) && !kw_at(toks, j, Keyword::NODE)
        && !kw_at(toks, j, Keyword::SUBPARTITION) && !kw_at(toks, j, Keyword::PARTITION) ==> {
        let k = if_not_exists_end(toks, if kw_at(toks, j, Keyword::COLUMN) { j + 1 } else { j });
        add_item_result(before, k, after, r)
    }
}

/// What a constraint or a column definition at `k` gives as an `ADD` action:
/// `[CONSTRAINT name] {UNIQUE | PRIMARY KEY} USING INDEX index`, another table constraint
/// (exact where `table_constraint_at` states it), or a column (exact where `column_def_at` states it).
pub open spec fn add_item_result(before: &Parser, k: int, after: &Parser, r: Result<AlterTableAction, ParserError>) -> bool {
    let toks = before.toks();
    if starts_table_constraint(toks, k) {
        match constraint_using_index_at(toks, k) {
            Some(Ok(((name, idx), q))) => r is Ok && r->Ok_0 is AddConstraintUsingIndex
                && r->Ok_0->AddConstraintUsingIndex_name@ == name && r->Ok_0->AddConstraintUsingIndex_index_name@ == idx
                && before.moved_to(after, q),
            Some(Err((q, e))) => r is Err && before.moved_to(after, q) && before.reports(r->Err_0, q, e),
            None => {
                let name = if kw_at(toks, k, Keyword::CONSTRAINT) { ident_text(tok_at(toks, k + 1)) } else { None };
                let j = if kw_at(toks, k, Keyword::CONSTRAINT) { k + 2 } else { k };
                &&& r is Ok ==> r->Ok_0 is AddConstraint && opt_text(r->Ok_0->AddConstraint_name) == name
                &&& match table_constraint_at(toks, j) {
                    Some(Ok((v, q))) => r is Ok && table_constraint_matches(toks, r->Ok_0->AddConstraint_constraint, v)
                        && before.moved_to(after, q),
                    Some(Err((q, e))) => r is Err && before.moved_to(after, q) && before.reports(r->Err_0, q, e),
                    None => true,
                }
            },
        }
    } else {
        &&& ident_text(tok_at(toks, k)) is None ==> r is Err && before.moved_to(after, k)
            && before.reports(r->Err_0, k, "identifier"@)
        &&& r is Ok ==> r->Ok_0 is AddColumn && Some(r->Ok_0->AddColumn_0.name@) == ident_text(tok_at(toks, k))
        &&& match column_def_at(toks, k) {
            Some(Ok((c, q))) => r is Ok && column_matches(toks, r->Ok_0->AddColumn_0, c) && before.moved_to(after, q),
            Some(Err((q, e))) => r is Err && before.moved_to(after, q) && before.reports(r->Err_0, q, e),
            None => true,
        }
    }
}

/// What `ALTER [COLUMN] name ...` at the cursor of `before` gives: statistics, storage,
/// or a column action (exact where `alter_column_action_at` states it).
pub open spec fn alter_column_result(before: &Parser, after: &Parser, r: Result<AlterTableAction, ParserError>) -> bool {
    let toks = before.toks();
    let i = before.position();
    let j = if kw_at(toks, i + 1, Keyword::COLUMN) { i + 2 } else { i + 1 };
    match ident_text(tok_at(toks, j)) {
        None => r is Err && before.moved_to(after, j) && before.reports(r->Err_0, j, "identifier"@),
        Some(n) => if kw_at(toks, j + 1, Keyword::SET) && kw_at(toks, j + 2, Keyword::STATISTICS) {
            let percent = kw_at(toks, j + 3, Keyword::PERCENT);
            let k = if percent { j + 4 } else { j + 3 };
            match tok_at(toks, k) {
                Token::Integer(v) => r is Ok && r->Ok_0 is AlterColumnStatistics
                    && r->Ok_0->AlterColumnStatistics_column@ == n
                    && r->Ok_0->AlterColumnStatistics_percent == percent
                    && r->Ok_0->AlterColumnStatistics_value == v && before.moved_to(after, k + 1),
                _ => r is Err && before.moved_to(after, k) && before.reports(r->Err_0, k, "integer literal"@),
            }
        } else if kw_at(toks, j + 1, Keyword::SET) && kw_at(toks, j + 2, Keyword::STORAGE) {
            match ident_text(tok_at(toks, j + 3)) {
                Some(st) => r is Ok && r->Ok_0 is AlterColumnStorage && r->Ok_0->AlterColumnStorage_column@ == n
                    && r->Ok_0->AlterColumnStorage_storage@ == st && before.moved_to(after, j + 4),
                None => r is Err && before.moved_to(after, j + 3) && before.reports(r->Err_0, j + 3, "identifier"@),
            }
        } else {
            &&& r is Ok ==> r->Ok_0 is AlterColumn && r->Ok_0->AlterColumn_name@ == n
            &&& match alter_column_action_at(toks, j + 1) {
                Some(Ok((v, q))) => r is Ok && col_action_matches(toks, r->Ok_0->AlterColumn_action, v)
                    && before.moved_to(after, q),
                Some(Err((q, e))) => r is Err && before.moved_to(after, q) && before.reports(r->Err_0, q, e),
                None => true,
            }
        },
    }
}

/// The partitions `{PARTITION | SUBPARTITION} name [TABLESPACE ts], ... )` of SPLIT from
/// `j` on, after `acc` (`TABLESPACE` is read for subpartitions only); `None` where one of
/// them has `VALUES` (whose reading is not restated here).
pub open spec fn split_items_from(toks: Seq<Token>, j: int, sub: bool, acc: Seq<PartitionDefView>) -> Option<Outcome<Seq<PartitionDefView>>>
    decreases toks.len() - j,
{
    let kw = if sub { Keyword::SUBPARTITION } else { Keyword::PARTITION };
    if !kw_at(toks, j, kw) {
        Some(Err((j, keyword_text(kw))))
    } else {
        match ident_text(tok_at(toks, j + 1)) {
            None => Some(Err((j + 1, "identifier"@))),
            Some(n) => {
                let j2 = j + 2;
                if kw_at(toks, j2, Keyword::VALUES) {
                    None
                } else {
                    let ts: Outcome<Option<Seq<char>>> = if sub && kw_at(toks, j2, Keyword::TABLESPACE) {
                        match ident_text(tok_at(toks, j2 + 1)) {
                            Some(t) => Ok((Some(t), j2 + 2)),
                            None => Err((j2 + 1, "identifier"@)),
                        }
                    } else {
                        Ok((None, j2))
                    };
                    match ts {
                        Err(e) => Some(Err(e)),
                        Ok((t, j3)) => {
                            let next = acc.push((n, false, t, 0nat));
                            if tok_at(toks, j3) is Comma {
                                split_items_from(toks, j3 + 1, sub, next)
                            } else if tok_at(toks, j3) is RParen {
                                Some(Ok((next, j3 + 1)))
                            } else {
                                Some(Err((j3, ")"@)))
                            }
                        },
                    }
                }
            },
        }
    }
}

/// `INTO ( ... )` of SPLIT at `k`.
pub open spec fn split_list_at(toks: Seq<Token>, k: int, sub: bool) -> Option<Outcome<Seq<PartitionDefView>>> {
    if !kw_at(toks, k, Keyword::INTO) {
        Some(Err((k, keyword_text(Keyword::INTO))))
    } else if !(tok_at(toks, k + 1) is LParen) {
        Some(Err((k + 1, "("@)))
    } else {
        split_items_from(toks, k + 2, sub, Seq::empty())
    }
}

/// The constraint name of `[CONSTRAINT name] ...` at `i`: empty where `CONSTRAINT` is absent.
pub open spec fn constraint_name_at(toks: Seq<Token>, i: int) -> Outcome<Seq<char>> {
    if kw_at(toks, i, Keyword::CONSTRAINT) {
        match ident_text(tok_at(toks, i + 1)) {
            Some(n) => Ok((n, i + 2)),
            None => Err((i + 1, "identifier"@)),
        }
    } else {
        Ok((Seq::empty(), i))
    }
}

/// `[CONSTRAINT name] {UNIQUE | PRIMARY KEY} USING INDEX index` at `i`: the constraint name
/// (empty where absent) and the index name. `None` where the constraint is another one.
pub open spec fn constraint_using_index_at(toks: Seq<Token>, i: int) -> Option<Outcome<(Seq<char>, Seq<char>)>> {
    match constraint_name_at(toks, i) {
        Err(e) => Some(Err(e)),
        Ok((name, j)) => {
            let unique_using = kw_at(toks, j, Keyword::UNIQUE) && kw_at(toks, j + 1, Keyword::USING);
            let primary_using = kw_at(toks, j, Keyword::PRIMARY) && kw_at(toks, j + 1, Keyword::KEY)
                && kw_at(toks, j + 2, Keyword::USING);
            if unique_using || primary_using {
                let k = if primary_using { j + 3 } else { j + 2 };
                if !kw_at(toks, k, Keyword::INDEX) {
                    Some(Err((k, keyword_text(Keyword::INDEX))))
                } else {
                    match ident_text(tok_at(toks, k + 1)) {
                        Some(idx) => Some(Ok(((name, idx), k + 2))),
                        None => Some(Err((k + 1, "identifier"@))),
                    }
                }
            } else {
                None
            }
        },
    }
}

/// `( ( column, ... ) )` of an extended statistics operation at `i`.
pub open spec fn statistics_columns_at(toks: Seq<Token>, i: int) -> Outcome<Seq<Seq<char>>> {
    if !(tok_at(toks, i) is LParen) {
        Err((i, "("@))
    } else {
        match paren_idents_at(toks, i + 1) {
            Err(e) => Err(e),
            Ok((c, j)) => if tok_at(toks, j) is RParen { Ok((c, j + 1)) } else { Err((j, ")"@)) },
        }
    }
}

/// `ROW LEVEL SECURITY` at `i`.
pub open spec fn row_level_security_at(toks: Seq<Token>, i: int) -> Outcome<()> {
    if !kw_at(toks, i, Keyword::ROW) {
        Err((i, "ROW"@))
    } else if !kw_at(toks, i + 1, Keyword::LEVEL) {
        Err((i + 1, "LEVEL"@))
    } else if !kw_at(toks, i + 2, Keyword::SECURITY) {
        Err((i + 2, "SECURITY"@))
    } else {
        Ok(((), i + 3))
    }
}

/// `WITH TABLE name` at `i`.
pub open spec fn with_table_at(toks: Seq<Token>, i: int) -> Outcome<Seq<Seq<char>>> {
    if !kw_at(toks, i, Keyword::WITH) {
        Err((i, "WITH"@))
    } else if !kw_at(toks, i + 1, Keyword::TABLE) {
        Err((i + 1, "TABLE"@))
    } else {
        object_name_at(toks, i + 2)
    }
}

/// `TRUNCATE {SUBPARTITION name [CASCADE] | PARTITION name [CASCADE] [index clauses]}` at `i`.
pub open spec fn truncate_action_at(toks: Seq<Token>, i: int) -> Outcome<NameActionView> {
    if kw_at(toks, i + 1, Keyword::SUBPARTITION) {
        match name_at(toks, i + 2) {
            Err(e) => Err(e),
            Ok((name, k)) => {
                let cascade = kw_at(toks, k, Keyword::CASCADE);
                Ok((NameActionView::TruncateSubPartition { name, cascade }, if cascade { k + 1 } else { k }))
            },
        }
    } else if !kw_at(toks, i + 1, Keyword::PARTITION) {
        Err((i + 1, "PARTITION"@))
    } else {
        match name_at(toks, i + 2) {
            Err(e) => Err(e),
            Ok((name, k)) => {
                let cascade = kw_at(toks, k, Keyword::CASCADE);
                match update_index_at(toks, if cascade { k + 1 } else { k }) {
                    Err(e) => Err(e),
                    Ok(((g, d), m)) => Ok((NameActionView::TruncatePartition {
                        name,
                        cascade,
                        update_global_index: g,
                        update_distributed_global_index: d,
                    }, m)),
                }
            },
        }
    }
}

/// `MERGE {SUBPARTITIONS a, ... INTO SUBPARTITION c | PARTITIONS a, ... INTO PARTITION c
/// [index clauses]}` at `i`.
pub open spec fn merge_action_at(toks: Seq<Token>, i: int) -> Outcome<NameActionView> {
    let sub = kw_at(toks, i + 1, Keyword::SUBPARTITIONS);
    if !sub && !kw_at(toks, i + 1, Keyword::PARTITIONS) {
        Err((i + 1, "PARTITIONS"@))
    } else {
        match ident_list_at(toks, i + 2) {
            Err(e) => Err(e),
            Ok((names, k)) => if !kw_at(toks, k, Keyword::INTO) {
                Err((k, "INTO"@))
            } else if sub && !kw_at(toks, k + 1, Keyword::SUBPARTITION) {
                Err((k + 1, "SUBPARTITION"@))
            } else if !sub && !kw_at(toks, k + 1, Keyword::PARTITION) {
                Err((k + 1, "PARTITION"@))
            } else {
                match name_at(toks, k + 2) {
                    Err(e) => Err(e),
                    Ok((into_name, m)) => if sub {
                        Ok((NameActionView::MergeSubPartitions { names, into_name }, m))
                    } else {
                        match update_index_at(toks, m) {
                            Err(e) => Err(e),
                            Ok(((g, d), n)) => Ok((NameActionView::MergePartitions {
                                names,
                                into_name,
                                update_global_index: g,
                                update_distributed_global_index: d,
                            }, n)),
                        }
                    },
                }
            },
        }
    }
}

/// `REPLICA IDENTITY ...` at `i`; `DEFAULT`, `NOTHING` and `FULL` are left unread.
pub open spec fn replica_identity_at(toks: Seq<Token>, i: int) -> Outcome<NameActionView> {
    let j = i + 2;
    if !kw_at(toks, i + 1, Keyword::IDENTITY_P) {
        Err((i + 1, "IDENTITY"@))
    } else if kw_at(toks, j, Keyword::DEFAULT) {
        Ok((NameActionView::ReplicaIdentity(ReplicaView::Default), j))
    } else if kw_at(toks, j, Keyword::NOTHING) {
        Ok((NameActionView::ReplicaIdentity(ReplicaView::Nothing), j))
    } else if kw_at(toks, j, Keyword::FULL) {
        Ok((NameActionView::ReplicaIdentity(ReplicaView::Full), j))
    } else if kw_at(toks, j, Keyword::USING) {
        if !kw_at(toks, j + 1, Keyword::INDEX) {
            Err((j + 1, "INDEX"@))
        } else {
            match name_at(toks, j + 2) {
                Err(e) => Err(e),
                Ok((n, m)) => Ok((NameActionView::ReplicaIdentity(ReplicaView::Index(n)), m)),
            }
        }
    } else {
        Err((j, "DEFAULT, NOTHING, FULL, or USING INDEX"@))
    }
}

/// `ILM {ENABLE | DISABLE | DELETE} [POLICY]` at `i`; `None` for `ILM ADD`, whose policy
/// may hold an expression.
pub open spec fn ilm_action_at(toks: Seq<Token>, i: int) -> Option<Outcome<NameActionView>> {
    let j = i + 1;
    if ident_word_at(toks, j, "ENABLE"@) || ident_word_at(toks, j, "DISABLE"@) || ident_word_at(toks, j, "DELETE"@) {
        let a = if ident_word_at(toks, j, "ENABLE"@) {
            NameActionView::IlmEnablePolicy
        } else if ident_word_at(toks, j, "DISABLE"@) {
            NameActionView::IlmDisablePolicy
        } else {
            NameActionView::IlmDeletePolicy
        };
        Some(Ok((a, if ident_word_at(toks, j + 1, "POLICY"@) { j + 2 } else { j + 1 })))
    } else if kw_at(toks, j, Keyword::ADD_P) {
        None
    } else {
        Some(Err((j, "ENABLE, DISABLE, DELETE, or ADD after ILM"@)))
    }
}

/// `NO INHERIT parent` or `NO FORCE ROW LEVEL SECURITY` at `i`.
pub open spec fn no_action_at(toks: Seq<Token>, i: int) -> Outcome<NameActionView> {
    if kw_at(toks, i + 1, Keyword::INHERIT) {
        match object_name_at(toks, i + 2) {
            Err(e) => Err(e),
            Ok((n, m)) => Ok((NameActionView::NoInherit(n), m)),
        }
    } else if kw_at(toks, i + 1, Keyword::FORCE) {
        match row_level_security_at(toks, i + 2) {
            Err(e) => Err(e),
            Ok((_, m)) => Ok((NameActionView::NoForceRowLevelSecurity, m)),
        }
    } else {
        Err((i + 1, "INHERIT or FORCE after NO"@))
    }
}

/// `{CHARACTER SET | CHARSET} name [COLLATE name]` at `i`.
pub open spec fn charset_action_at(toks: Seq<Token>, i: int) -> Outcome<NameActionView> {
    let j0 = after(toks, i);
    let j1 = if kw_at(toks, j0, Keyword::SET) { j0 + 1 } else { j0 };
    match name_at(toks, j1) {
        Err(e) => Err(e),
        Ok((charset, k)) => if kw_at(toks, k, Keyword::COLLATE) || ident_word_at(toks, k, "collate"@)
            || ident_word_at(toks, k, "COLLATION"@) {
            match name_at(toks, k + 1) {
                Err(e) => Err(e),
                Ok((c, m)) => Ok((NameActionView::SetCharset { charset, collation: Some(c) }, m)),
            }
        } else {
            Ok((NameActionView::SetCharset { charset, collation: None }, k))
        },
    }
}

/// `EXCHANGE {SUBPARTITION name WITH TABLE t | PARTITION {name | (name)} WITH TABLE t
/// [WITH|WITHOUT VALIDATION] [VERBOSE] [index clauses]}` at `i`.
pub open spec fn exchange_action_at(toks: Seq<Token>, i: int) -> Outcome<NameActionView> {
    if kw_at(toks, i + 1, Keyword::SUBPARTITION) {
        match name_at(toks, i + 2) {
            Err(e) => Err(e),
            Ok((name, k)) => match with_table_at(toks, k) {
                Err(e) => Err(e),
                Ok((table, m)) => Ok((NameActionView::ExchangeSubPartition { name, table }, m)),
            },
        }
    } else if !kw_at(toks, i + 1, Keyword::PARTITION) {
        Err((i + 1, "PARTITION"@))
    } else {
        let j = i + 2;
        let named: Outcome<Seq<char>> = if tok_at(toks, j) is LParen {
            match name_at(toks, j + 1) {
                Err(e) => Err(e),
                Ok((n, k)) => if tok_at(toks, k) is RParen { Ok((n, k + 1)) } else { Err((k, ")"@)) },
            }
        } else {
            name_at(toks, j)
        };
        match named {
            Err(e) => Err(e),
            Ok((name, k)) => match with_table_at(toks, k) {
                Err(e) => Err(e),
                Ok((table, m)) => {
                    let wv: Outcome<Option<bool>> = if kw_at(toks, m, Keyword::WITH) || kw_at(toks, m, Keyword::WITHOUT) {
                        if kw_at(toks, m + 1, Keyword::VALIDATION) {
                            Ok((Some(kw_at(toks, m, Keyword::WITH)), m + 2))
                        } else {
                            Err((m + 1, "VALIDATION"@))
                        }
                    } else {
                        Ok((None, m))
                    };
                    match wv {
                        Err(e) => Err(e),
                        Ok((with_validation, n)) => {
                            let verbose = kw_at(toks, n, Keyword::VERBOSE);
                            match update_index_at(toks, if verbose { n + 1 } else { n }) {
                                Err(e) => Err(e),
                                Ok(((g, d), q)) => Ok((NameActionView::ExchangePartition {
                                    name,
                                    table,
                                    update_global_index: g,
                                    update_distributed_global_index: d,
                                    with_validation,
                                    verbose,
                                }, q)),
                            }
                        },
                    }
                },
            },
        }
    }
}

/// `MOVE {SUBPARTITION | PARTITION} name TABLESPACE ts` at `i`; `None` for
/// `MOVE PARTITION FOR (value) ...`.
pub open spec fn move_action_at(toks: Seq<Token>, i: int) -> Option<Outcome<NameActionView>> {
    if !kw_at(toks, i + 1, Keyword::SUBPARTITION) && !kw_at(toks, i + 1, Keyword::PARTITION) {
        Some(Err((i + 1, "PARTITION or SUBPARTITION"@)))
    } else {
        let sub = kw_at(toks, i + 1, Keyword::SUBPARTITION);
        if !sub && kw_at(toks, i + 2, Keyword::FOR) {
            None
        } else {
            Some(match name_at(toks, i + 2) {
                Err(e) => Err(e),
                Ok((name, k)) => if !kw_at(toks, k, Keyword::TABLESPACE) {
                    Err((k, "TABLESPACE"@))
                } else {
                    match name_at(toks, k + 1) {
                        Err(e) => Err(e),
                        Ok((tablespace, m)) => Ok((if sub {
                            NameActionView::MoveSubPartition { name, tablespace }
                        } else {
                            NameActionView::MovePartition { name, tablespace }
                        }, m)),
                    }
                },
            })
        }
    }
}

/// `ENABLE ...` or `DISABLE ...` at `i`.
pub open spec fn enable_disable_at(toks: Seq<Token>, i: int) -> Outcome<NameActionView> {
    let enable = kw_at(toks, i, Keyword::ENABLE_P);
    let j = after(toks, i);
    if kw_at(toks, j, Keyword::ROW) {
        if kw_at(toks, j + 1, Keyword::MOVEMENT) {
            Ok((if enable { NameActionView::EnableRowMovement } else { NameActionView::DisableRowMovement }, j + 2))
        } else if !kw_at(toks, j + 1, Keyword::LEVEL) {
            Err((j + 1, "LEVEL"@))
        } else if !kw_at(toks, j + 2, Keyword::SECURITY) {
            Err((j + 2, "SECURITY"@))
        } else {
            Ok((if enable { NameActionView::EnableRowLevelSecurity } else { NameActionView::DisableRowLevelSecurity }, j + 3))
        }
    } else if kw_at(toks, j, Keyword::TRIGGER) {
        let named: Outcome<Option<Seq<char>>> = if kw_at(toks, j + 1, Keyword::ALL) || kw_at(toks, j + 1, Keyword::USER) {
            Ok((None, j + 2))
        } else {
            match name_at(toks, j + 1) {
                Err(e) => Err(e),
                Ok((n, m)) => Ok((Some(n), m)),
            }
        };
        match named {
            Err(e) => Err(e),
            Ok((n, m)) => Ok((if enable { NameActionView::EnableTrigger(n) } else { NameActionView::DisableTrigger(n) }, m)),
        }
    } else if kw_at(toks, j, Keyword::RULE) {
        match name_at(toks, j + 1) {
            Err(e) => Err(e),
            Ok((n, m)) => Ok((NameActionView::SetRule { enable, mode: None, name: n }, m)),
        }
    } else if kw_at(toks, j, Keyword::STATISTICS) {
        match statistics_columns_at(toks, j + 1) {
            Err(e) => Err(e),
            Ok((c, m)) => Ok((NameActionView::StatisticsOp {
                op: if enable { StatisticsOpKind::Enable } else { StatisticsOpKind::Disable },
                columns: c,
            }, m)),
        }
    } else {
        let mode: Option<Seq<char>> = if kw_at(toks, j, Keyword::REPLICA) {
            Some("REPLICA"@)
        } else if kw_at(toks, j, Keyword::ALWAYS) {
            Some("ALWAYS"@)
        } else {
            None
        };
        let k = if mode is Some { j + 1 } else { j };
        if kw_at(toks, k, Keyword::RULE) {
            match name_at(toks, k + 1) {
                Err(e) => Err(e),
                Ok((n, m)) => Ok((NameActionView::SetRule { enable, mode, name: n }, m)),
            }
        } else {
            Ok((if enable { NameActionView::EnableRowLevelSecurity } else { NameActionView::DisableRowLevelSecurity }, k))
        }
    }
}

impl Parser {
    /// `( ( column, ... ) )` of an extended statistics operation.
    fn parse_statistics_columns(&mut self, op: StatisticsOpKind) -> (r: Result<AlterTableAction, ParserError>)
        requires
            old(self).wf(),
        ensures
            old(self).steps(&*final(self)),
            r is Ok ==> final(self).position() > old(self).position()
                && (r->Ok_0 matches AlterTableAction::StatisticsOp { op: o, .. } && o == op),
            match statistics_columns_at(old(self).toks(), old(self).position()) {
                Ok((c, q)) => (r matches Ok(AlterTableAction::StatisticsOp { op: o, columns }) && o == op
                    && strings_view(columns@) == c) && old(self).moved_to(&*final(self), q),
                Err((q, e)) => r is Err && old(self).moved_to(&*final(self), q) && old(self).reports(r->Err_0, q, e),
            },
    {
        match self.expect_token(&Token::LParen, "(") {
            Ok(()) => {},
            Err(e) => return Err(e),
        }
        let columns = match self.parse_paren_identifiers() {
            Ok(c) => c,
            Err(e) => return Err(e),
        };
        match self.expect_token(&Token::RParen, ")") {
            Ok(()) => Ok(AlterTableAction::StatisticsOp { op, columns }),
            Err(e) => Err(e),
        }
    }

    /// Skips `IF NOT EXISTS` as far as it goes.
    fn skip_if_not_exists(&mut self)
        requires
            old(self).wf(),
        ensures
            final(self).wf(),
            old(self).steps(&*final(self)),
            old(self).warnings() == final(self).warnings(),
            old(self).moved_to(&*final(self), if_not_exists_end(old(self).toks(), old(self).position())),
    {
        let _ = self.parse_if_not_exists();
    }

    /// After `ADD [COLUMN] [IF NOT EXISTS]`: a constraint (possibly `UNIQUE USING INDEX`
    /// or `PRIMARY KEY USING INDEX`) or a column definition.
    fn parse_add_constraint_or_column(&mut self) -> (r: Result<AlterTableAction, ParserError>)
        requires
            old(self).wf(),
        ensures
            old(self).steps(&*final(self)),
            r is Ok ==> final(self).position() > old(self).position() && (r->Ok_0 is AddConstraintUsingIndex
                || r->Ok_0 is AddConstraint || r->Ok_0 is AddColumn),
            add_item_result(&*old(self), old(self).position(), &*final(self), r),
    {
        if self.match_keyword(Keyword::CONSTRAINT) || self.match_keyword(Keyword::PRIMARY) || self.match_keyword(Keyword::UNIQUE)
            || self.match_keyword(Keyword::CHECK) || self.match_keyword(Keyword::FOREIGN) {
            let name: Option<String> = if self.match_keyword(Keyword::CONSTRAINT) {
                self.advance();
                match self.parse_identifier() {
                    Ok(n) => Some(n),
                    Err(e) => return Err(e),
                }
            } else {
                None
            };
            let unique_using = self.match_keyword(Keyword::UNIQUE) && self.peek_at(1).same_as(&Token::Keyword(Keyword::USING));
            let primary_using = self.match_keyword(Keyword::PRIMARY) && self.peek_at(1).same_as(&Token::Keyword(Keyword::KEY))
                && self.peek_at(2).same_as(&Token::Keyword(Keyword::USING));
            if unique_using || primary_using {
                self.advance();
                self.advance();
                if primary_using {
                    self.advance();
                }
                match self.expect_keyword(Keyword::INDEX) {
                    Ok(()) => {},
                    Err(e) => return Err(e),
                }
                let index_name = match self.parse_identifier() {
                    Ok(n) => n,
                    Err(e) => return Err(e),
                };
                let name = match name {
                    Some(n) => n,
                    None => String::new(),
                };
                return Ok(AlterTableAction::AddConstraintUsingIndex { name, index_name });
            }
            return match self.parse_table_constraint() {
                Ok(constraint) => Ok(AlterTableAction::AddConstraint { name, constraint }),
                Err(e) => Err(e),
            };
        }
        match self.parse_column_def() {
            Ok(col) => Ok(AlterTableAction::AddColumn(col)),
            Err(e) => Err(e),
        }
    }

    /// `( column, ... )` of `ADD`, at the cursor.
    fn parse_add_column_list(&mut self) -> (r: Result<AlterTableAction, ParserError>)
        requires
            old(self).wf(),
            tok_at(old(self).toks(), old(self).position()) is LParen,
        ensures
            old(self).steps(&*final(self)),
            r is Ok ==> final(self).position() > old(self).position() && r->Ok_0 is AddColumns
                && r->Ok_0->AddColumns_0@.len() >= 1
                && Some(r->Ok_0->AddColumns_0@[0].name@) == ident_text(tok_at(old(self).toks(), old(self).position() + 1)),
            ident_text(tok_at(old(self).toks(), old(self).position() + 1)) is None ==> r is Err
                && old(self).moved_to(&*final(self), old(self).position() + 1)
                && old(self).reports(r->Err_0, old(self).position() + 1, "identifier"@),
            match column_list_from(old(self).toks(), old(self).position() + 1, Seq::empty()) {
                Some(Ok((vs, q))) => r is Ok && columns_match(old(self).toks(), r->Ok_0->AddColumns_0@, vs)
                    && old(self).moved_to(&*final(self), q),
                Some(Err((q, e))) => r is Err && old(self).moved_to(&*final(self), q) && old(self).reports(r->Err_0, q, e),
                None => true,
            },
    {
        self.advance();
        let mut cols: Vec<crate::ast::ColumnDef> = Vec::new();
        let ghost whole = column_list_from(old(self).toks(), old(self).position() + 1, Seq::empty());
        let ghost mut vs: Seq<ColumnView> = Seq::empty();
        loop
            invariant_except_break
                whole is Some ==> column_list_from(old(self).toks(), self.position(), vs) == whole,
            invariant
                old(self).steps(&*self),
                self.position() > old(self).position(),
                tok_at(old(self).toks(), old(self).position()) is LParen,
                cols@.len() == 0 ==> old(self).moved_to(&*self, old(self).position() + 1),
                cols@.len() >= 1 ==> Some(cols@[0].name@) == ident_text(tok_at(old(self).toks(), old(self).position() + 1)),
                whole == column_list_from(old(self).toks(), old(self).position() + 1, Seq::empty()),
                whole is Some ==> columns_match(old(self).toks(), cols@, vs) && old(self).moved_to(&*self, self.position()),
            ensures
                old(self).steps(&*self),
                self.position() > old(self).position(),
                tok_at(old(self).toks(), old(self).position()) is LParen,
                cols@.len() >= 1 && Some(cols@[0].name@) == ident_text(tok_at(old(self).toks(), old(self).position() + 1)),
                whole is Some ==> columns_match(old(self).toks(), cols@, vs) && old(self).moved_to(&*self, self.position())
                    && whole == if tok_at(old(self).toks(), self.position()) is RParen {
                        Some(Outcome::<Seq<ColumnView>>::Ok((vs, self.position() + 1)))
                    } else {
                        Some(Outcome::<Seq<ColumnView>>::Err((self.position(), ")"@)))
                    },
            decreases self.toks().len() - self.position(),
        {
            let ghost pos = self.position();
            match self.parse_column_def() {
                Ok(c) => {
                    proof {
                        if whole is Some {
                            let v = column_def_at(old(self).toks(), pos)->Some_0->Ok_0.0;
                            let old_vs = vs;
                            vs = vs.push(v);
                            assert forall|k: int| 0 <= k < cols@.len() + 1 implies column_matches(
                                old(self).toks(),
                                cols@.push(c)[k],
                                vs[k],
                            ) by {
                                if k < cols@.len() {
                                    assert(cols@.push(c)[k] == cols@[k]);
                                    assert(vs[k] == old_vs[k]);
                                }
                            }
                        }
                    }
                    cols.push(c);
                },
                Err(e) => return Err(e),
            }
            if !self.match_token(&Token::Comma) {
                break;
            }
            self.advance();
        }
        match self.expect_token(&Token::RParen, ")") {
            Ok(()) => Ok(AlterTableAction::AddColumns(cols)),
            Err(e) => Err(e),
        }
    }

    /// `ADD ...`: columns, statistics, a partition or subpartition, a constraint, a node.
    fn parse_add_action(&mut self) -> (r: Result<AlterTableAction, ParserError>)
        requires
            old(self).wf(),
            kw_at(old(self).toks(), old(self).position(), Keyword::ADD_P),
        ensures
            old(self).steps(&*final(self)),
            r is Ok ==> final(self).position() > old(self).position() && action_family(old(self).toks(), old(self).position(), r->Ok_0),
            add_action_result(&*old(self), &*final(self), r),
    {
        self.advance();
        if self.match_token(&Token::LParen) {
            return self.parse_add_column_list();
        }
        if self.match_keyword(Keyword::STATISTICS) {
            self.advance();
            return self.parse_statistics_columns(StatisticsOpKind::Add);
        }
        if self.match_keyword(Keyword::PARTITION) {
            self.advance();
            let name = match self.parse_identifier() {
                Ok(n) => n,
                Err(e) => return Err(e),
            };
            let values = match self.parse_partition_values() {
                Ok(v) => v,
                Err(e) => return Err(e),
            };
            let tablespace: Option<String> = if self.match_keyword(Keyword::TABLESPACE) {
                self.advance();
                match self.parse_identifier() {
                    Ok(t) => Some(t),
                    Err(e) => return Err(e),
                }
            } else {
                None
            };
            return Ok(AlterTableAction::AddPartition { name, values, tablespace });
        }
        if self.match_keyword(Keyword::SUBPARTITION) {
            self.advance();
            let name = match self.parse_identifier() {
                Ok(n) => n,
                Err(e) => return Err(e),
            };
            let values = if self.match_keyword(Keyword::VALUES) {
                match self.parse_partition_values() {
                    Ok(v) => Some(v),
                    Err(e) => return Err(e),
                }
            } else {
                None
            };
            return Ok(AlterTableAction::AddSubPartition { partition_name: String::new(), name, values });
        }
        if self.match_keyword(Keyword::NODE) {
            self.advance();
            return match self.parse_identifier() {
                Ok(node_name) => Ok(AlterTableAction::AddNode { node_name }),
                Err(e) => Err(e),
            };
        }
        if self.match_keyword(Keyword::COLUMN) {
            self.advance();
        }
        self.skip_if_not_exists();
        self.parse_add_constraint_or_column()
    }

    /// `[IF EXISTS] name`, returning both.
    fn parse_if_exists_name(&mut self) -> (r: Result<(bool, String), ParserError>)
        requires
            old(self).wf(),
        ensures
            old(self).steps(&*final(self)),
            r is Ok ==> final(self).position() > old(self).position(),
            agrees(&*old(self), &*final(self), r, if_exists_name_at(old(self).toks(), old(self).position()),
                |p: (bool, String)| (p.0, p.1@)),
    {
        let if_exists = self.parse_if_exists();
        match self.parse_identifier() {
            Ok(n) => Ok((if_exists, n)),
            Err(e) => Err(e),
        }
    }

    /// `DROP ...`: a partition (by name or `FOR (value)`), a subpartition, a column, a
    /// constraint, a node.
    fn parse_drop_action(&mut self) -> (r: Result<AlterTableAction, ParserError>)
        requires
            old(self).wf(),
            kw_at(old(self).toks(), old(self).position(), Keyword::DROP),
        ensures
            old(self).steps(&*final(self)),
            r is Ok ==> final(self).position() > old(self).position() && action_family(old(self).toks(), old(self).position(), r->Ok_0),
            match drop_action_at(old(self).toks(), old(self).position()) {
                Some(o) => agrees(&*old(self), &*final(self), r, o, |a: AlterTableAction| name_action_view(a).unwrap())
                    && (r is Ok ==> name_action_view(r->Ok_0) is Some),
                None => true,
            },
    {
        self.advance();
        if self.match_keyword(Keyword::PARTITION) {
            self.advance();
            let if_exists = self.parse_if_exists();
            if self.match_keyword(Keyword::FOR) {
                self.advance();
                let expr = match self.parse_paren_expr() {
                    Ok(e) => e,
                    Err(e) => return Err(e),
                };
                return match self.parse_update_index_clauses() {
                    Ok((update_global_index, update_distributed_global_index)) => Ok(AlterTableAction::DropPartitionFor {
                        expr,
                        if_exists,
                        update_global_index,
                        update_distributed_global_index,
                    }),
                    Err(e) => Err(e),
                };
            }
            let name = match self.parse_identifier() {
                Ok(n) => n,
                Err(e) => return Err(e),
            };
            return match self.parse_update_index_clauses() {
                Ok((update_global_index, update_distributed_global_index)) => Ok(AlterTableAction::DropPartition {
                    name,
                    if_exists,
                    update_global_index,
                    update_distributed_global_index,
                }),
                Err(e) => Err(e),
            };
        }
        if self.match_keyword(Keyword::SUBPARTITION) {
            self.advance();
            return match self.parse_if_exists_name() {
                Ok((if_exists, name)) => Ok(AlterTableAction::DropSubPartition { name, if_exists }),
                Err(e) => Err(e),
            };
        }
        if self.match_keyword(Keyword::COLUMN) || self.match_keyword(Keyword::CONSTRAINT) {
            let column = self.match_keyword(Keyword::COLUMN);
            self.advance();
            let (if_exists, name) = match self.parse_if_exists_name() {
                Ok(x) => x,
                Err(e) => return Err(e),
            };
            let cascade = self.try_consume_keyword(Keyword::CASCADE);
            return Ok(if column {
                AlterTableAction::DropColumn { name, if_exists, cascade }
            } else {
                AlterTableAction::DropConstraint { name, if_exists, cascade }
            });
        }
        if self.match_keyword(Keyword::NODE) {
            self.advance();
            return match self.parse_identifier() {
                Ok(node_name) => Ok(AlterTableAction::DeleteNode { node_name }),
                Err(e) => Err(e),
            };
        }
        Err(self.unexpected("COLUMN, CONSTRAINT, or NODE"))
    }

    /// The change after `ALTER [COLUMN] name`: `TYPE t`, `SET DATA TYPE t`,
    /// `SET DEFAULT e`, `SET NOT NULL`, `DROP DEFAULT`, `DROP NOT NULL`.
    pub fn parse_alter_column_action(&mut self) -> (r: Result<AlterColumnAction, ParserError>)
        requires
            old(self).wf(),
        ensures
            old(self).steps(&*final(self)),
            r is Ok ==> final(self).position() > old(self).position(),
            !kw_at(old(self).toks(), old(self).position(), Keyword::TYPE_P) && !kw_at(old(self).toks(), old(self).position(), Keyword::SET)
                && !kw_at(old(self).toks(), old(self).position(), Keyword::DROP) ==> r is Err
                && old(self).moved_to(&*final(self), old(self).position())
                && old(self).reports(r->Err_0, old(self).position(), "ALTER COLUMN action"@),
            match alter_column_action_at(old(self).toks(), old(self).position()) {
                Some(Ok((v, q))) => r is Ok && col_action_matches(old(self).toks(), r->Ok_0, v) && old(self).moved_to(&*final(self), q),
                Some(Err((q, e))) => r is Err && old(self).moved_to(&*final(self), q) && old(self).reports(r->Err_0, q, e),
                None => true,
            },
    {
        if self.match_keyword(Keyword::TYPE_P) {
            self.advance();
            return match self.parse_data_type() {
                Ok(t) => Ok(AlterColumnAction::SetDataType(t)),
                Err(e) => Err(e),
            };
        }
        if self.match_keyword(Keyword::SET) {
            self.advance();
            if self.match_keyword(Keyword::DATA_P) {
                self.advance();
                match self.expect_keyword(Keyword::TYPE_P) {
                    Ok(()) => {},
                    Err(e) => return Err(e),
                }
                return match self.parse_data_type() {
                    Ok(t) => Ok(AlterColumnAction::SetDataType(t)),
                    Err(e) => Err(e),
                };
            }
            if self.match_keyword(Keyword::DEFAULT) {
                self.advance();
                return match self.parse_expr() {
                    Ok(e) => Ok(AlterColumnAction::SetDefault(e)),
                    Err(e) => Err(e),
                };
            }
            if self.match_keyword(Keyword::NOT) {
                self.advance();
                return match self.expect_keyword(Keyword::NULL_P) {
                    Ok(()) => Ok(AlterColumnAction::SetNotNull),
                    Err(e) => Err(e),
                };
            }
            return Err(self.unexpected("ALTER COLUMN SET option"));
        }
        if self.match_keyword(Keyword::DROP) {
            self.advance();
            if self.match_keyword(Keyword::DEFAULT) {
                self.advance();
                return Ok(AlterColumnAction::DropDefault);
            }
            if self.match_keyword(Keyword::NOT) {
                self.advance();
                return match self.expect_keyword(Keyword::NULL_P) {
                    Ok(()) => Ok(AlterColumnAction::DropNotNull),
                    Err(e) => Err(e),
                };
            }
            return Err(self.unexpected("DROP DEFAULT or DROP NOT NULL"));
        }
        Err(self.unexpected("ALTER COLUMN action"))
    }

    /// `ALTER [COLUMN] name ...`: statistics, storage, or a column change.
    fn parse_alter_column(&mut self) -> (r: Result<AlterTableAction, ParserError>)
        requires
            old(self).wf(),
            kw_at(old(self).toks(), old(self).position(), Keyword::ALTER),
        ensures
            old(self).steps(&*final(self)),
            r is Ok ==> final(self).position() > old(self).position() && action_family(old(self).toks(), old(self).position(), r->Ok_0),
            alter_column_result(&*old(self), &*final(self), r),
    {
        self.advance();
        if self.match_keyword(Keyword::COLUMN) {
            self.advance();
        }
        let name = match self.parse_identifier() {
            Ok(n) => n,
            Err(e) => return Err(e),
        };
        if self.match_keyword(Keyword::SET) && self.peek_at(1).same_as(&Token::Keyword(Keyword::STATISTICS)) {
            self.advance();
            self.advance();
            let percent = self.try_consume_keyword(Keyword::PERCENT);
            return match self.parse_integer_literal() {
                Ok(value) => Ok(AlterTableAction::AlterColumnStatistics { column: name, percent, value }),
                Err(e) => Err(e),
            };
        }
        if self.match_keyword(Keyword::SET) && self.peek_at(1).same_as(&Token::Keyword(Keyword::STORAGE)) {
            self.advance();
            self.advance();
            return match self.parse_identifier() {
                Ok(storage) => Ok(AlterTableAction::AlterColumnStorage { column: name, storage }),
                Err(e) => Err(e),
            };
        }
        match self.parse_alter_column_action() {
            Ok(action) => Ok(AlterTableAction::AlterColumn { name, action }),
            Err(e) => Err(e),
        }
    }

    /// `old TO new` (identifiers).
    fn parse_rename_pair(&mut self) -> (r: Result<(String, String), ParserError>)
        requires
            old(self).wf(),
        ensures
            old(self).steps(&*final(self)),
            r is Ok ==> final(self).position() > old(self).position(),
            agrees(&*old(self), &*final(self), r, rename_pair_at(old(self).toks(), old(self).position()),
                |p: (String, String)| (p.0@, p.1@)),
    {
        let old_name = match self.parse_identifier() {
            Ok(n) => n,
            Err(e) => return Err(e),
        };
        match self.expect_keyword(Keyword::TO) {
            Ok(()) => {},
            Err(e) => return Err(e),
        }
        match self.parse_identifier() {
            Ok(new_name) => Ok((old_name, new_name)),
            Err(e) => Err(e),
        }
    }

    /// `RENAME ...`: a subpartition, a partition (by name or `FOR (value)`), a column, a
    /// constraint (read and not kept), or the table itself.
    fn parse_rename_action(&mut self) -> (r: Result<AlterTableAction, ParserError>)
        requires
            old(self).wf(),
            kw_at(old(self).toks(), old(self).position(), Keyword::RENAME),
        ensures
            old(self).steps(&*final(self)),
            r is Ok ==> final(self).position() > old(self).position() && action_family(old(self).toks(), old(self).position(), r->Ok_0),
            match rename_action_at(old(self).toks(), old(self).position()) {
                Some(o) => agrees(&*old(self), &*final(self), r, o, |a: AlterTableAction| name_action_view(a).unwrap())
                    && (r is Ok ==> name_action_view(r->Ok_0) is Some),
                None => true,
            },
    {
        self.advance();
        if self.match_keyword(Keyword::SUBPARTITION) {
            self.advance();
            return match self.parse_rename_pair() {
                Ok((old_name, new_name)) => Ok(AlterTableAction::RenameSubPartition { old_name, new_name }),
                Err(e) => Err(e),
            };
        }
        if self.match_keyword(Keyword::PARTITION) {
            self.advance();
            if self.match_keyword(Keyword::FOR) {
                self.advance();
                let expr = match self.parse_paren_expr() {
                    Ok(e) => e,
                    Err(e) => return Err(e),
                };
                match self.expect_keyword(Keyword::TO) {
                    Ok(()) => {},
                    Err(e) => return Err(e),
                }
                return match self.parse_identifier() {
                    Ok(new_name) => Ok(AlterTableAction::RenamePartitionFor { expr, new_name }),
                    Err(e) => Err(e),
                };
            }
            return match self.parse_rename_pair() {
                Ok((old_name, new_name)) => Ok(AlterTableAction::RenamePartition { old_name, new_name }),
                Err(e) => Err(e),
            };
        }
        if self.match_keyword(Keyword::COLUMN) {
            self.advance();
            return match self.parse_rename_pair() {
                Ok((old, new)) => Ok(AlterTableAction::RenameColumn { old, new }),
                Err(e) => Err(e),
            };
        }
        if self.match_keyword(Keyword::CONSTRAINT) {
            self.advance();
            return match self.parse_rename_pair() {
                Ok(_) => Ok(AlterTableAction::DropConstraint { name: String::new(), if_exists: false, cascade: false }),
                Err(e) => Err(e),
            };
        }
        match self.expect_keyword(Keyword::TO) {
            Ok(()) => {},
            Err(e) => return Err(e),
        }
        match self.parse_identifier() {
            Ok(new_name) => Ok(AlterTableAction::RenameTo { new_name }),
            Err(e) => Err(e),
        }
    }

    /// `SET ...`: schema, tablespace, compression, `WITHOUT CLUSTER|OIDS`, `(key = value, ...)`.
    fn parse_set_action(&mut self) -> (r: Result<AlterTableAction, ParserError>)
        requires
            old(self).wf(),
            kw_at(old(self).toks(), old(self).position(), Keyword::SET),
        ensures
            old(self).steps(&*final(self)),
            r is Ok ==> final(self).position() > old(self).position() && action_family(old(self).toks(), old(self).position(), r->Ok_0),
            agrees(&*old(self), &*final(self), r, set_action_at(old(self).toks(), old(self).position()),
                |a: AlterTableAction| name_action_view(a).unwrap()),
            r is Ok ==> name_action_view(r->Ok_0) is Some,
    {
        self.advance();
        if self.match_keyword(Keyword::SCHEMA) {
            self.advance();
            return match self.parse_identifier() {
                Ok(schema) => Ok(AlterTableAction::SetSchema { schema }),
                Err(e) => Err(e),
            };
        }
        if self.match_keyword(Keyword::TABLESPACE) {
            self.advance();
            return match self.parse_identifier() {
                Ok(tablespace) => Ok(AlterTableAction::SetTablespace { tablespace }),
                Err(e) => Err(e),
            };
        }
        if self.match_keyword(Keyword::COMPRESS) {
            self.advance();
            return Ok(AlterTableAction::SetCompress);
        }
        if self.match_keyword(Keyword::WITHOUT) {
            self.advance();
            if self.match_keyword(Keyword::CLUSTER) {
                self.advance();
                return Ok(AlterTableAction::SetWithoutCluster);
            }
            return match self.expect_keyword(Keyword::OIDS) {
                Ok(()) => Ok(AlterTableAction::SetWithoutOids),
                Err(e) => Err(e),
            };
        }
        if self.match_token(&Token::LParen) {
            self.advance();
            return match self.parse_dict_options() {
                Ok(options) => Ok(AlterTableAction::SetOptions { options }),
                Err(e) => Err(e),
            };
        }
        Err(self.unexpected("SCHEMA, TABLESPACE, COMPRESS, WITHOUT OIDS, or (...)"))
    }
}

impl Parser {
    /// `TRUNCATE SUBPARTITION name [CASCADE]` or `TRUNCATE PARTITION name [CASCADE]
    /// [index clauses]`.
    fn parse_truncate_partition_action(&mut self) -> (r: Result<AlterTableAction, ParserError>)
        requires
            old(self).wf(),
            kw_at(old(self).toks(), old(self).position(), Keyword::TRUNCATE),
        ensures
            old(self).steps(&*final(self)),
            r is Ok ==> final(self).position() > old(self).position() && action_family(old(self).toks(), old(self).position(), r->Ok_0),
            agrees(&*old(self), &*final(self), r, truncate_action_at(old(self).toks(), old(self).position()), |a: AlterTableAction| name_action_view(a).unwrap()),
            r is Ok ==> name_action_view(r->Ok_0) is Some,
    {
        self.advance();
        if self.match_keyword(Keyword::SUBPARTITION) {
            self.advance();
            let name = match self.parse_identifier() {
                Ok(n) => n,
                Err(e) => return Err(e),
            };
            let cascade = self.try_consume_keyword(Keyword::CASCADE);
            return Ok(AlterTableAction::TruncateSubPartition { name, cascade });
        }
        match self.expect_keyword(Keyword::PARTITION) {
            Ok(()) => {},
            Err(e) => return Err(e),
        }
        let name = match self.parse_identifier() {
            Ok(n) => n,
            Err(e) => return Err(e),
        };
        let cascade = self.try_consume_keyword(Keyword::CASCADE);
        match self.parse_update_index_clauses() {
            Ok((update_global_index, update_distributed_global_index)) => Ok(AlterTableAction::TruncatePartition {
                name,
                cascade,
                update_global_index,
                update_distributed_global_index,
            }),
            Err(e) => Err(e),
        }
    }

    /// `MERGE SUBPARTITIONS a, b INTO SUBPARTITION c` or `MERGE PARTITIONS a, b INTO
    /// PARTITION c [index clauses]`.
    fn parse_merge_action(&mut self) -> (r: Result<AlterTableAction, ParserError>)
        requires
            old(self).wf(),
            kw_at(old(self).toks(), old(self).position(), Keyword::MERGE),
        ensures
            old(self).steps(&*final(self)),
            r is Ok ==> final(self).position() > old(self).position() && action_family(old(self).toks(), old(self).position(), r->Ok_0),
            agrees(&*old(self), &*final(self), r, merge_action_at(old(self).toks(), old(self).position()), |a: AlterTableAction| name_action_view(a).unwrap()),
            r is Ok ==> name_action_view(r->Ok_0) is Some,
    {
        self.advance();
        let sub = self.match_keyword(Keyword::SUBPARTITIONS);
        if sub {
            self.advance();
        } else {
            match self.expect_keyword(Keyword::PARTITIONS) {
                Ok(()) => {},
                Err(e) => return Err(e),
            }
        }
        let names = match self.parse_identifier_list() {
            Ok(n) => n,
            Err(e) => return Err(e),
        };
        match self.expect_keyword(Keyword::INTO) {
            Ok(()) => {},
            Err(e) => return Err(e),
        }
        match self.expect_keyword(if sub { Keyword::SUBPARTITION } else { Keyword::PARTITION }) {
            Ok(()) => {},
            Err(e) => return Err(e),
        }
        let into_name = match self.parse_identifier() {
            Ok(n) => n,
            Err(e) => return Err(e),
        };
        if sub {
            return Ok(AlterTableAction::MergeSubPartitions { names, into_name });
        }
        match self.parse_update_index_clauses() {
            Ok((update_global_index, update_distributed_global_index)) => Ok(AlterTableAction::MergePartitions {
                names,
                into_name,
                update_global_index,
                update_distributed_global_index,
            }),
            Err(e) => Err(e),
        }
    }

    /// `[AT expr] INTO ( {PARTITION|SUBPARTITION} name [values] [TABLESPACE ts], ... )`;
    /// the tablespace is read for subpartitions only.
    fn parse_split_into(&mut self, sub: bool) -> (r: Result<(Option<Expr>, Vec<PartitionDef>), ParserError>)
        requires
            old(self).wf(),
        ensures
            old(self).steps(&*final(self)),
            r is Ok ==> final(self).position() > old(self).position(),
            ({
                let toks = old(self).toks();
                let i = old(self).position();
                let leaf_at = kw_at(toks, i, Keyword::AT) && has_leaf(toks, i + 1) && ends_operand(toks, leaf_end(toks, i + 1), 0);
                let k = if leaf_at { leaf_end(toks, i + 1) } else { i };
                &&& leaf_at && r is Ok ==> r->Ok_0.0 is Some && leaf_value(toks, i + 1, r->Ok_0.0->Some_0)
                &&& !kw_at(toks, i, Keyword::AT) && r is Ok ==> r->Ok_0.0 is None
                &&& leaf_at || !kw_at(toks, i, Keyword::AT) ==> match split_list_at(toks, k, sub) {
                    Some(Ok((defs, q))) => r is Ok && partition_defs_view(r->Ok_0.1@) == defs && old(self).moved_to(&*final(self), q),
                    Some(Err((q, e))) => r is Err && old(self).moved_to(&*final(self), q) && old(self).reports(r->Err_0, q, e),
                    None => true,
                }
            }),
    {
        let at_value: Option<Expr> = if self.match_keyword(Keyword::AT) {
            self.advance();
            match self.parse_expr() {
                Ok(e) => Some(e),
                Err(e) => return Err(e),
            }
        } else {
            None
        };
        let ghost k = self.position();
        let ghost known = (kw_at(old(self).toks(), old(self).position(), Keyword::AT) && has_leaf(old(self).toks(), old(self).position() + 1)
            && ends_operand(old(self).toks(), leaf_end(old(self).toks(), old(self).position() + 1), 0))
            || !kw_at(old(self).toks(), old(self).position(), Keyword::AT);
        match self.expect_keyword(Keyword::INTO) {
            Ok(()) => {},
            Err(e) => return Err(e),
        }
        match self.expect_token(&Token::LParen, "(") {
            Ok(()) => {},
            Err(e) => return Err(e),
        }
        let mut partitions: Vec<PartitionDef> = Vec::new();
        proof {
            assert(partition_defs_view(partitions@) =~= Seq::<PartitionDefView>::empty());
        }
        loop
            invariant_except_break
                known && split_list_at(old(self).toks(), k, sub) is Some
                    ==> split_items_from(self.toks(), self.position(), sub, partition_defs_view(partitions@))
                        == split_list_at(old(self).toks(), k, sub),
            invariant
                old(self).steps(&*self),
                self.position() > old(self).position(),
                known == ((kw_at(old(self).toks(), old(self).position(), Keyword::AT) && has_leaf(old(self).toks(), old(self).position() + 1)
                    && ends_operand(old(self).toks(), leaf_end(old(self).toks(), old(self).position() + 1), 0))
                    || !kw_at(old(self).toks(), old(self).position(), Keyword::AT)),
                known ==> k == if kw_at(old(self).toks(), old(self).position(), Keyword::AT) {
                    leaf_end(old(self).toks(), old(self).position() + 1)
                } else {
                    old(self).position()
                },
                known && split_list_at(old(self).toks(), k, sub) is Some ==> kw_at(old(self).toks(), k, Keyword::INTO)
                    && tok_at(old(self).toks(), k + 1) is LParen && k + 2 <= self.position(),
                known && split_list_at(old(self).toks(), k, sub) is Some ==> old(self).moved_to(&*self, self.position()),
            ensures
                old(self).steps(&*self),
                self.position() > old(self).position(),
                known && split_list_at(old(self).toks(), k, sub) is Some ==> old(self).moved_to(&*self, self.position()),
                known && split_list_at(old(self).toks(), k, sub) is Some
                    ==> split_list_at(old(self).toks(), k, sub) == if self.current() is RParen {
                        Some(Outcome::<Seq<PartitionDefView>>::Ok((partition_defs_view(partitions@), self.position() + 1)))
                    } else {
                        Some(Outcome::<Seq<PartitionDefView>>::Err((self.position(), ")"@)))
                    },
            decreases self.toks().len() - self.position(),
        {
            let ghost before = partition_defs_view(partitions@);
            match self.expect_keyword(if sub { Keyword::SUBPARTITION } else { Keyword::PARTITION }) {
                Ok(()) => {},
                Err(e) => return Err(e),
            }
            let name = match self.parse_identifier() {
                Ok(n) => n,
                Err(e) => return Err(e),
            };
            let values = if self.match_keyword(Keyword::VALUES) {
                match self.parse_partition_values() {
                    Ok(v) => Some(v),
                    Err(e) => return Err(e),
                }
            } else {
                None
            };
            let tablespace: Option<String> = if sub && self.match_keyword(Keyword::TABLESPACE) {
                self.advance();
                match self.parse_identifier() {
                    Ok(t) => Some(t),
                    Err(e) => return Err(e),
                }
            } else {
                None
            };
            partitions.push(PartitionDef { name, values, tablespace, subpartitions: Vec::new() });
            proof {
                assert(partition_defs_view(partitions@) =~= before.push(partition_defs_view(partitions@).last()));
            }
            if !self.match_token(&Token::Comma) {
                break;
            }
            self.advance();
        }
        match self.expect_token(&Token::RParen, ")") {
            Ok(()) => Ok((at_value, partitions)),
            Err(e) => Err(e),
        }
    }

    /// `SPLIT SUBPARTITION name ...` or `SPLIT PARTITION {name | FOR (value)} ... [index clauses]`.
    fn parse_split_action(&mut self) -> (r: Result<AlterTableAction, ParserError>)
        requires
            old(self).wf(),
            kw_at(old(self).toks(), old(self).position(), Keyword::SPLIT),
        ensures
            old(self).steps(&*final(self)),
            r is Ok ==> final(self).position() > old(self).position() && action_family(old(self).toks(), old(self).position(), r->Ok_0),
            split_action_result(&*old(self), &*final(self), r),
    {
        self.advance();
        if self.match_keyword(Keyword::SUBPARTITION) {
            self.advance();
            let name = match self.parse_identifier() {
                Ok(n) => n,
                Err(e) => return Err(e),
            };
            return match self.parse_split_into(true) {
                Ok((at_value, into)) => Ok(AlterTableAction::SplitSubPartition { name, at_value, into }),
                Err(e) => Err(e),
            };
        }
        match self.expect_keyword(Keyword::PARTITION) {
            Ok(()) => {},
            Err(e) => return Err(e),
        }
        if self.match_keyword(Keyword::FOR) {
            self.advance();
            let expr = match self.parse_paren_expr() {
                Ok(e) => e,
                Err(e) => return Err(e),
            };
            let (at_value, into) = match self.parse_split_into(false) {
                Ok(x) => x,
                Err(e) => return Err(e),
            };
            return match self.parse_update_index_clauses() {
                Ok((update_global_index, update_distributed_global_index)) => Ok(AlterTableAction::SplitPartitionFor {
                    expr,
                    at_value,
                    into,
                    update_global_index,
                    update_distributed_global_index,
                }),
                Err(e) => Err(e),
            };
        }
        let name = match self.parse_identifier() {
            Ok(n) => n,
            Err(e) => return Err(e),
        };
        let (at_value, into) = match self.parse_split_into(false) {
            Ok(x) => x,
            Err(e) => return Err(e),
        };
        match self.parse_update_index_clauses() {
            Ok((update_global_index, update_distributed_global_index)) => Ok(AlterTableAction::SplitPartition {
                name,
                at_value,
                into,
                update_global_index,
                update_distributed_global_index,
            }),
            Err(e) => Err(e),
        }
    }

    /// `WITH TABLE name`.
    fn parse_with_table(&mut self) -> (r: Result<Vec<String>, ParserError>)
        requires
            old(self).wf(),
        ensures
            old(self).steps(&*final(self)),
            r is Ok ==> final(self).position() > old(self).position(),
            agrees(&*old(self), &*final(self), r, with_table_at(old(self).toks(), old(self).position()),
                |v: Vec<String>| strings_view(v@)),
    {
        match self.expect_keyword(Keyword::WITH) {
            Ok(()) => {},
            Err(e) => return Err(e),
        }
        match self.expect_keyword(Keyword::TABLE) {
            Ok(()) => {},
            Err(e) => return Err(e),
        }
        proof { lemma_object_name_bounds(self.toks(), self.position()); }
        self.parse_object_name()
    }

    /// `EXCHANGE SUBPARTITION name WITH TABLE t` or `EXCHANGE PARTITION {name | (name)}
    /// WITH TABLE t [WITH|WITHOUT VALIDATION] [VERBOSE] [index clauses]`.
    #[verifier::rlimit(60)]
    fn parse_exchange_action(&mut self) -> (r: Result<AlterTableAction, ParserError>)
        requires
            old(self).wf(),
            kw_at(old(self).toks(), old(self).position(), Keyword::EXCHANGE),
        ensures
            old(self).steps(&*final(self)),
            r is Ok ==> final(self).position() > old(self).position() && action_family(old(self).toks(), old(self).position(), r->Ok_0),
            agrees(&*old(self), &*final(self), r, exchange_action_at(old(self).toks(), old(self).position()), |a: AlterTableAction| name_action_view(a).unwrap()),
            r is Ok ==> name_action_view(r->Ok_0) is Some,
    {
        self.advance();
        if self.match_keyword(Keyword::SUBPARTITION) {
            self.advance();
            let name = match self.parse_identifier() {
                Ok(n) => n,
                Err(e) => return Err(e),
            };
            return match self.parse_with_table() {
                Ok(table) => Ok(AlterTableAction::ExchangeSubPartition { name, table }),
                Err(e) => Err(e),
            };
        }
        match self.expect_keyword(Keyword::PARTITION) {
            Ok(()) => {},
            Err(e) => return Err(e),
        }
        let name = if self.match_token(&Token::LParen) {
            self.advance();
            let n = match self.parse_identifier() {
                Ok(n) => n,
                Err(e) => return Err(e),
            };
            match self.expect_token(&Token::RParen, ")") {
                Ok(()) => n,
                Err(e) => return Err(e),
            }
        } else {
            match self.parse_identifier() {
                Ok(n) => n,
                Err(e) => return Err(e),
            }
        };
        let table = match self.parse_with_table() {
            Ok(t) => t,
            Err(e) => return Err(e),
        };
        let with_validation: Option<bool> = if self.match_keyword(Keyword::WITH) || self.match_keyword(Keyword::WITHOUT) {
            let with = self.match_keyword(Keyword::WITH);
            self.advance();
            match self.expect_keyword(Keyword::VALIDATION) {
                Ok(()) => Some(with),
                Err(e) => return Err(e),
            }
        } else {
            None
        };
        let verbose = self.try_consume_keyword(Keyword::VERBOSE);
        match self.parse_update_index_clauses() {
            Ok((update_global_index, update_distributed_global_index)) => Ok(AlterTableAction::ExchangePartition {
                name,
                table,
                update_global_index,
                update_distributed_global_index,
                with_validation,
                verbose,
            }),
            Err(e) => Err(e),
        }
    }

    /// `MOVE SUBPARTITION name TABLESPACE ts` or `MOVE PARTITION {name | FOR (value)} TABLESPACE ts`.
    fn parse_move_action(&mut self) -> (r: Result<AlterTableAction, ParserError>)
        requires
            old(self).wf(),
            kw_at(old(self).toks(), old(self).position(), Keyword::MOVE),
        ensures
            old(self).steps(&*final(self)),
            r is Ok ==> final(self).position() > old(self).position() && action_family(old(self).toks(), old(self).position(), r->Ok_0),
            match move_action_at(old(self).toks(), old(self).position()) {
                Some(o) => agrees(&*old(self), &*final(self), r, o, |a: AlterTableAction| name_action_view(a).unwrap())
                    && (r is Ok ==> name_action_view(r->Ok_0) is Some),
                None => r is Ok ==> r->Ok_0 is MovePartitionFor,
            },
    {
        self.advance();
        if !self.match_keyword(Keyword::SUBPARTITION) && !self.match_keyword(Keyword::PARTITION) {
            return Err(self.unexpected("PARTITION or SUBPARTITION"));
        }
        let sub = self.match_keyword(Keyword::SUBPARTITION);
        self.advance();
        let mut expr: Option<Expr> = None;
        let mut name = String::new();
        if !sub && self.match_keyword(Keyword::FOR) {
            self.advance();
            match self.parse_paren_expr() {
                Ok(e) => expr = Some(e),
                Err(e) => return Err(e),
            }
        } else {
            match self.parse_identifier() {
                Ok(n) => name = n,
                Err(e) => return Err(e),
            }
        }
        match self.expect_keyword(Keyword::TABLESPACE) {
            Ok(()) => {},
            Err(e) => return Err(e),
        }
        let tablespace = match self.parse_identifier() {
            Ok(t) => t,
            Err(e) => return Err(e),
        };
        if sub {
            return Ok(AlterTableAction::MoveSubPartition { name, tablespace });
        }
        match expr {
            Some(expr) => Ok(AlterTableAction::MovePartitionFor { expr, tablespace }),
            None => Ok(AlterTableAction::MovePartition { name, tablespace }),
        }
    }

    /// One column of `MODIFY ( ... )`: `name type [NOT NULL | NULL]`.
    fn parse_modify_item(&mut self) -> (r: Result<ModifyColumnInfo, ParserError>)
        requires
            old(self).wf(),
        ensures
            old(self).steps(&*final(self)),
            r is Ok ==> final(self).position() > old(self).position()
                && Some(r->Ok_0.name@) == ident_text(old(self).current()),
            ident_text(old(self).current()) is None ==> r is Err && old(self).moved_to(&*final(self), old(self).position())
                && old(self).reports(r->Err_0, old(self).position(), "identifier"@),
            r is Ok ==> match named_type_mods_at(old(self).toks(), old(self).position() + 1) {
                Some(ts) => custom_mods_match(old(self).toks(), r->Ok_0.data_type, ts),
                None => true,
            },
            match modify_item_at(old(self).toks(), old(self).position()) {
                Some(Ok((v, q))) => r is Ok && modify_item_matches(old(self).toks(), r->Ok_0, v) && old(self).moved_to(&*final(self), q),
                Some(Err((q, e))) => r is Err && old(self).moved_to(&*final(self), q) && old(self).reports(r->Err_0, q, e),
                None => true,
            },
    {
        let name = match self.parse_identifier() {
            Ok(n) => n,
            Err(e) => return Err(e),
        };
        let data_type = match self.parse_data_type() {
            Ok(t) => t,
            Err(e) => return Err(e),
        };
        let nullability: Option<bool> = if self.match_keyword(Keyword::NOT) {
            self.advance();
            match self.expect_keyword(Keyword::NULL_P) {
                Ok(()) => Some(false),
                Err(e) => return Err(e),
            }
        } else if self.match_keyword(Keyword::NULL_P) {
            self.advance();
            Some(true)
        } else {
            None
        };
        Ok(ModifyColumnInfo { name, data_type, nullability })
    }

    /// `( column, ... )` of `MODIFY`, at the cursor.
    fn parse_modify_column_list(&mut self) -> (r: Result<AlterTableAction, ParserError>)
        requires
            old(self).wf(),
            tok_at(old(self).toks(), old(self).position()) is LParen,
        ensures
            old(self).steps(&*final(self)),
            r is Ok ==> final(self).position() > old(self).position() && r->Ok_0 is ModifyColumns
                && r->Ok_0->ModifyColumns_0@.len() >= 1
                && Some(r->Ok_0->ModifyColumns_0@[0].name@) == ident_text(tok_at(old(self).toks(), old(self).position() + 1)),
            ident_text(tok_at(old(self).toks(), old(self).position() + 1)) is None ==> r is Err
                && old(self).moved_to(&*final(self), old(self).position() + 1)
                && old(self).reports(r->Err_0, old(self).position() + 1, "identifier"@),
            match modify_list_from(old(self).toks(), old(self).position() + 1, Seq::empty()) {
                Some(Ok((vs, q))) => r is Ok && modify_items_match(old(self).toks(), r->Ok_0->ModifyColumns_0@, vs)
                    && old(self).moved_to(&*final(self), q),
                Some(Err((q, e))) => r is Err && old(self).moved_to(&*final(self), q) && old(self).reports(r->Err_0, q, e),
                None => true,
            },
    {
        self.advance();
        let mut cols: Vec<ModifyColumnInfo> = Vec::new();
        let ghost whole = modify_list_from(old(self).toks(), old(self).position() + 1, Seq::empty());
        let ghost mut vs: Seq<(Seq<char>, TypeView, Option<bool>, Option<Seq<OpTree>>)> = Seq::empty();
        loop
            invariant_except_break
                whole is Some ==> modify_list_from(old(self).toks(), self.position(), vs) == whole,
            invariant
                old(self).steps(&*self),
                self.position() > old(self).position(),
                tok_at(old(self).toks(), old(self).position()) is LParen,
                cols@.len() == 0 ==> old(self).moved_to(&*self, old(self).position() + 1),
                cols@.len() >= 1 ==> Some(cols@[0].name@) == ident_text(tok_at(old(self).toks(), old(self).position() + 1)),
                whole == modify_list_from(old(self).toks(), old(self).position() + 1, Seq::empty()),
                whole is Some ==> modify_items_match(old(self).toks(), cols@, vs) && old(self).moved_to(&*self, self.position()),
            ensures
                old(self).steps(&*self),
                self.position() > old(self).position(),
                tok_at(old(self).toks(), old(self).position()) is LParen,
                cols@.len() >= 1 && Some(cols@[0].name@) == ident_text(tok_at(old(self).toks(), old(self).position() + 1)),
                whole is Some ==> modify_items_match(old(self).toks(), cols@, vs) && old(self).moved_to(&*self, self.position())
                    && whole == if tok_at(old(self).toks(), self.position()) is RParen {
                        Some(Outcome::<Seq<(Seq<char>, TypeView, Option<bool>, Option<Seq<OpTree>>)>>::Ok((vs, self.position() + 1)))
                    } else {
                        Some(Outcome::<Seq<(Seq<char>, TypeView, Option<bool>, Option<Seq<OpTree>>)>>::Err((self.position(), ")"@)))
                    },
            decreases self.toks().len() - self.position(),
        {
            let ghost pos = self.position();
            match self.parse_modify_item() {
                Ok(c) => {
                    proof {
                        if whole is Some {
                            let v = modify_item_at(old(self).toks(), pos)->Some_0->Ok_0.0;
                            let old_vs = vs;
                            vs = vs.push(v);
                            assert forall|k: int| 0 <= k < cols@.len() + 1 implies modify_item_matches(old(self).toks(), cols@.push(c)[k], vs[k]) by {
                                if k < cols@.len() {
                                    assert(cols@.push(c)[k] == cols@[k]);
                                    assert(vs[k] == old_vs[k]);
                                }
                            }
                        }
                    }
                    cols.push(c);
                },
                Err(e) => return Err(e),
            }
            if !self.match_token(&Token::Comma) {
                break;
            }
            self.advance();
        }
        match self.expect_token(&Token::RParen, ")") {
            Ok(()) => Ok(AlterTableAction::ModifyColumns(cols)),
            Err(e) => Err(e),
        }
    }

    /// `MODIFY (col type [NOT NULL | NULL], ...)` or `MODIFY col {NOT NULL | NULL | type}`.
    fn parse_modify_action(&mut self) -> (r: Result<AlterTableAction, ParserError>)
        requires
            old(self).wf(),
            kw_at(old(self).toks(), old(self).position(), Keyword::MODIFY_P),
        ensures
            old(self).steps(&*final(self)),
            r is Ok ==> final(self).position() > old(self).position() && action_family(old(self).toks(), old(self).position(), r->Ok_0),
            modify_action_result(&*old(self), &*final(self), r),
    {
        self.advance();
        if self.match_token(&Token::LParen) {
            return self.parse_modify_column_list();
        }
        let name = match self.parse_identifier() {
            Ok(n) => n,
            Err(e) => return Err(e),
        };
        let action = if self.match_keyword(Keyword::NOT) {
            self.advance();
            match self.expect_keyword(Keyword::NULL_P) {
                Ok(()) => AlterColumnAction::SetNotNull,
                Err(e) => return Err(e),
            }
        } else if self.match_keyword(Keyword::NULL_P) {
            self.advance();
            AlterColumnAction::DropNotNull
        } else {
            match self.parse_data_type() {
                Ok(t) => AlterColumnAction::SetDataType(t),
                Err(e) => return Err(e),
            }
        };
        Ok(AlterTableAction::AlterColumn { name, action })
    }

    /// `ENABLE ...` or `DISABLE ...`: row movement, row level security, a trigger (or all
    /// of them), a rule (optionally `REPLICA` or `ALWAYS`), extended statistics.
    fn parse_enable_disable_action(&mut self) -> (r: Result<AlterTableAction, ParserError>)
        requires
            old(self).wf(),
            kw_at(old(self).toks(), old(self).position(), Keyword::ENABLE_P)
                || kw_at(old(self).toks(), old(self).position(), Keyword::DISABLE_P),
        ensures
            old(self).steps(&*final(self)),
            r is Ok ==> final(self).position() > old(self).position() && action_family(old(self).toks(), old(self).position(), r->Ok_0),
            agrees(&*old(self), &*final(self), r, enable_disable_at(old(self).toks(), old(self).position()), |a: AlterTableAction| name_action_view(a).unwrap()),
            r is Ok ==> name_action_view(r->Ok_0) is Some,
    {
        let enable = self.match_keyword(Keyword::ENABLE_P);
        self.advance();
        if self.match_keyword(Keyword::ROW) {
            self.advance();
            if self.match_keyword(Keyword::MOVEMENT) {
                self.advance();
                return Ok(if enable { AlterTableAction::EnableRowMovement } else { AlterTableAction::DisableRowMovement });
            }
            match self.expect_keyword(Keyword::LEVEL) {
                Ok(()) => {},
                Err(e) => return Err(e),
            }
            return match self.expect_keyword(Keyword::SECURITY) {
                Ok(()) => Ok(if enable { AlterTableAction::EnableRowLevelSecurity } else { AlterTableAction::DisableRowLevelSecurity }),
                Err(e) => Err(e),
            };
        }
        if self.match_keyword(Keyword::TRIGGER) {
            self.advance();
            let name: Option<String> = if self.match_keyword(Keyword::ALL) || self.match_keyword(Keyword::USER) {
                self.advance();
                None
            } else {
                match self.parse_identifier() {
                    Ok(n) => Some(n),
                    Err(e) => return Err(e),
                }
            };
            return Ok(if enable { AlterTableAction::EnableTrigger { name } } else { AlterTableAction::DisableTrigger { name } });
        }
        if self.match_keyword(Keyword::RULE) {
            self.advance();
            return match self.parse_identifier() {
                Ok(name) => Ok(AlterTableAction::SetRule { enable, mode: None, name }),
                Err(e) => Err(e),
            };
        }
        if self.match_keyword(Keyword::STATISTICS) {
            self.advance();
            return self.parse_statistics_columns(if enable { StatisticsOpKind::Enable } else { StatisticsOpKind::Disable });
        }
        let mode: Option<String> = if self.match_keyword(Keyword::REPLICA) {
            self.advance();
            Some(String::from_str("REPLICA"))
        } else if self.match_keyword(Keyword::ALWAYS) {
            self.advance();
            Some(String::from_str("ALWAYS"))
        } else {
            None
        };
        if self.match_keyword(Keyword::RULE) {
            self.advance();
            return match self.parse_identifier() {
                Ok(name) => Ok(AlterTableAction::SetRule { enable, mode, name }),
                Err(e) => Err(e),
            };
        }
        Ok(if enable { AlterTableAction::EnableRowLevelSecurity } else { AlterTableAction::DisableRowLevelSecurity })
    }

    /// `REPLICA IDENTITY {DEFAULT | NOTHING | FULL | USING INDEX name}`. The words
    /// `DEFAULT`, `NOTHING` and `FULL` are recognised and left unread.
    fn parse_replica_identity(&mut self) -> (r: Result<AlterTableAction, ParserError>)
        requires
            old(self).wf(),
            kw_at(old(self).toks(), old(self).position(), Keyword::REPLICA),
        ensures
            old(self).steps(&*final(self)),
            r is Ok ==> final(self).position() > old(self).position() && action_family(old(self).toks(), old(self).position(), r->Ok_0),
            agrees(&*old(self), &*final(self), r, replica_identity_at(old(self).toks(), old(self).position()), |a: AlterTableAction| name_action_view(a).unwrap()),
            r is Ok ==> name_action_view(r->Ok_0) is Some,
    {
        self.advance();
        match self.expect_keyword(Keyword::IDENTITY_P) {
            Ok(()) => {},
            Err(e) => return Err(e),
        }
        let identity = if self.match_keyword(Keyword::DEFAULT) {
            ReplicaIdentity::Default
        } else if self.match_keyword(Keyword::NOTHING) {
            ReplicaIdentity::Nothing
        } else if self.match_keyword(Keyword::FULL) {
            ReplicaIdentity::Full
        } else if self.match_keyword(Keyword::USING) {
            self.advance();
            match self.expect_keyword(Keyword::INDEX) {
                Ok(()) => {},
                Err(e) => return Err(e),
            }
            match self.parse_identifier() {
                Ok(name) => ReplicaIdentity::Index { name },
                Err(e) => return Err(e),
            }
        } else {
            return Err(self.unexpected("DEFAULT, NOTHING, FULL, or USING INDEX"));
        };
        Ok(AlterTableAction::ReplicaIdentity(identity))
    }

    /// `ILM {ENABLE | DISABLE | DELETE} [POLICY]` or `ILM ADD ...` (the words after ILM
    /// as identifiers, any case, except `ADD`).
    fn parse_ilm_action(&mut self) -> (r: Result<AlterTableAction, ParserError>)
        requires
            old(self).wf(),
            ident_word_at(old(self).toks(), old(self).position(), "ILM"@),
        ensures
            old(self).steps(&*final(self)),
            r is Ok ==> final(self).position() > old(self).position() && action_family(old(self).toks(), old(self).position(), r->Ok_0),
            match ilm_action_at(old(self).toks(), old(self).position()) {
                Some(o) => agrees(&*old(self), &*final(self), r, o, |a: AlterTableAction| name_action_view(a).unwrap())
                    && (r is Ok ==> name_action_view(r->Ok_0) is Some),
                None => r is Ok ==> r->Ok_0 is IlmAddPolicy,
            },
    {
        self.advance();
        if self.match_ident_str("ENABLE") || self.match_ident_str("DISABLE") || self.match_ident_str("DELETE") {
            let action = if self.match_ident_str("ENABLE") {
                AlterTableAction::IlmEnablePolicy
            } else if self.match_ident_str("DISABLE") {
                AlterTableAction::IlmDisablePolicy
            } else {
                AlterTableAction::IlmDeletePolicy
            };
            self.advance();
            if self.match_ident_str("POLICY") {
                self.advance();
            }
            return Ok(action);
        }
        if self.match_keyword(Keyword::ADD_P) {
            self.advance();
            return match self.parse_ilm_policy_body() {
                Ok(p) => Ok(AlterTableAction::IlmAddPolicy(p)),
                Err(e) => Err(e),
            };
        }
        Err(self.unexpected("ENABLE, DISABLE, DELETE, or ADD after ILM"))
    }

    /// `NO INHERIT parent` or `NO FORCE ROW LEVEL SECURITY`.
    fn parse_no_action(&mut self) -> (r: Result<AlterTableAction, ParserError>)
        requires
            old(self).wf(),
            kw_at(old(self).toks(), old(self).position(), Keyword::NO),
        ensures
            old(self).steps(&*final(self)),
            r is Ok ==> final(self).position() > old(self).position() && action_family(old(self).toks(), old(self).position(), r->Ok_0),
            agrees(&*old(self), &*final(self), r, no_action_at(old(self).toks(), old(self).position()), |a: AlterTableAction| name_action_view(a).unwrap()),
            r is Ok ==> name_action_view(r->Ok_0) is Some,
    {
        self.advance();
        if self.match_keyword(Keyword::INHERIT) {
            self.advance();
            proof { lemma_object_name_bounds(self.toks(), self.position()); }
            return match self.parse_object_name() {
                Ok(parent) => Ok(AlterTableAction::NoInherit { parent }),
                Err(e) => Err(e),
            };
        }
        if self.match_keyword(Keyword::FORCE) {
            self.advance();
            return match self.expect_row_level_security() {
                Ok(()) => Ok(AlterTableAction::NoForceRowLevelSecurity),
                Err(e) => Err(e),
            };
        }
        Err(self.unexpected("INHERIT or FORCE after NO"))
    }

    /// `ROW LEVEL SECURITY`.
    fn expect_row_level_security(&mut self) -> (r: Result<(), ParserError>)
        requires
            old(self).wf(),
        ensures
            old(self).steps(&*final(self)),
            old(self).warnings() == final(self).warnings(),
            r is Ok ==> final(self).position() > old(self).position(),
            agrees(&*old(self), &*final(self), r, row_level_security_at(old(self).toks(), old(self).position()), |u: ()| u),
    {
        match self.expect_keyword(Keyword::ROW) {
            Ok(()) => {},
            Err(e) => return Err(e),
        }
        match self.expect_keyword(Keyword::LEVEL) {
            Ok(()) => {},
            Err(e) => return Err(e),
        }
        self.expect_keyword(Keyword::SECURITY)
    }

    /// `CHARACTER SET name [COLLATE name]` or `CHARSET name [COLLATE name]` (`COLLATE` or
    /// `COLLATION` may be written as identifiers).
    fn parse_charset_action(&mut self) -> (r: Result<AlterTableAction, ParserError>)
        requires
            old(self).wf(),
            kw_at(old(self).toks(), old(self).position(), Keyword::CHARSET)
                || kw_at(old(self).toks(), old(self).position(), Keyword::CHARACTER),
        ensures
            old(self).steps(&*final(self)),
            r is Ok ==> final(self).position() > old(self).position() && action_family(old(self).toks(), old(self).position(), r->Ok_0),
            agrees(&*old(self), &*final(self), r, charset_action_at(old(self).toks(), old(self).position()), |a: AlterTableAction| name_action_view(a).unwrap()),
            r is Ok ==> name_action_view(r->Ok_0) is Some,
    {
        self.advance();
        if self.match_keyword(Keyword::SET) {
            self.advance();
        }
        let charset = match self.parse_identifier() {
            Ok(c) => c,
            Err(e) => return Err(e),
        };
        let collation: Option<String> = if self.match_keyword(Keyword::COLLATE) || self.match_ident_str("collate")
            || self.match_ident_str("COLLATION") {
            self.advance();
            match self.parse_identifier() {
                Ok(c) => Some(c),
                Err(e) => return Err(e),
            }
        } else {
            None
        };
        Ok(AlterTableAction::SetCharset { charset, collation })
    }

    /// An object name after a keyword that has been seen.
    fn parse_name_after_keyword(&mut self) -> (r: Result<Vec<String>, ParserError>)
        requires
            old(self).wf(),
            old(self).position() < old(self).toks().len(),
        ensures
            old(self).steps(&*final(self)),
            r is Ok ==> final(self).position() > old(self).position(),
            agrees(&*old(self), &*final(self), r, object_name_at(old(self).toks(), old(self).position() + 1),
                |v: Vec<String>| strings_view(v@)),
    {
        self.advance();
        proof { lemma_object_name_bounds(self.toks(), self.position()); }
        self.parse_object_name()
    }

    /// One ALTER TABLE action.
    pub fn parse_alter_table_action(&mut self) -> (r: Result<AlterTableAction, ParserError>)
        requires
            old(self).wf(),
        ensures
            old(self).steps(&*final(self)),
            r is Ok ==> final(self).position() > old(self).position() && action_family(old(self).toks(), old(self).position(), r->Ok_0),
            !starts_action(old(self).toks(), old(self).position()) ==> r is Err
                && old(self).moved_to(&*final(self), old(self).position())
                && old(self).reports(r->Err_0, old(self).position(), "ALTER TABLE action"@),
            match name_action_at(old(self).toks(), old(self).position()) {
                Some(o) => agrees(&*old(self), &*final(self), r, o, |a: AlterTableAction| name_action_view(a).unwrap())
                    && (r is Ok ==> name_action_view(r->Ok_0) is Some),
                None => true,
            },
            kw_at(old(self).toks(), old(self).position(), Keyword::ADD_P) ==> add_action_result(&*old(self), &*final(self), r),
            kw_at(old(self).toks(), old(self).position(), Keyword::ALTER) ==> alter_column_result(&*old(self), &*final(self), r),
            kw_at(old(self).toks(), old(self).position(), Keyword::MODIFY_P) ==> modify_action_result(&*old(self), &*final(self), r),
            kw_at(old(self).toks(), old(self).position(), Keyword::SPLIT) ==> split_action_result(&*old(self), &*final(self), r),
            match single_action_at(old(self).toks(), old(self).position()) {
                Some(Ok((v, q))) => r is Ok && action_matches(old(self).toks(), r->Ok_0, v) && old(self).moved_to(&*final(self), q),
                Some(Err((q, e))) => r is Err && old(self).moved_to(&*final(self), q) && old(self).reports(r->Err_0, q, e),
                None => true,
            },
    {
        match self.peek_keyword() {
            Some(Keyword::ADD_P) => self.parse_add_action(),
            Some(Keyword::DROP) => self.parse_drop_action(),
            Some(Keyword::ALTER) => self.parse_alter_column(),
            Some(Keyword::RENAME) => self.parse_rename_action(),
            Some(Keyword::OWNER) => {
                self.advance();
                match self.expect_keyword(Keyword::TO) {
                    Ok(()) => {},
                    Err(e) => return Err(e),
                }
                match self.parse_identifier() {
                    Ok(owner) => Ok(AlterTableAction::OwnerTo { owner }),
                    Err(e) => Err(e),
                }
            },
            Some(Keyword::SET) => self.parse_set_action(),
            Some(Keyword::TRUNCATE) => self.parse_truncate_partition_action(),
            Some(Keyword::MERGE) => self.parse_merge_action(),
            Some(Keyword::SPLIT) => self.parse_split_action(),
            Some(Keyword::EXCHANGE) => self.parse_exchange_action(),
            Some(Keyword::RESET) => {
                self.advance();
                if !self.match_token(&Token::LParen) {
                    return Err(self.unexpected("(option, ...)"));
                }
                match self.parse_paren_identifiers() {
                    Ok(options) => Ok(AlterTableAction::ResetOptions { options }),
                    Err(e) => Err(e),
                }
            },
            Some(Keyword::MOVE) => self.parse_move_action(),
            Some(Keyword::MODIFY_P) => self.parse_modify_action(),
            Some(Keyword::ENABLE_P) | Some(Keyword::DISABLE_P) => self.parse_enable_disable_action(),
            Some(Keyword::CHARSET) | Some(Keyword::CHARACTER) => self.parse_charset_action(),
            Some(Keyword::VALIDATE) => {
                self.advance();
                match self.expect_keyword(Keyword::CONSTRAINT) {
                    Ok(()) => {},
                    Err(e) => return Err(e),
                }
                match self.parse_identifier() {
                    Ok(name) => Ok(AlterTableAction::ValidateConstraint { name }),
                    Err(e) => Err(e),
                }
            },
            Some(Keyword::INHERIT) => match self.parse_name_after_keyword() {
                Ok(parent) => Ok(AlterTableAction::Inherit { parent }),
                Err(e) => Err(e),
            },
            Some(Keyword::NO) => self.parse_no_action(),
            Some(Keyword::CLUSTER) => {
                self.advance();
                match self.expect_keyword(Keyword::ON) {
                    Ok(()) => {},
                    Err(e) => return Err(e),
                }
                match self.parse_identifier() {
                    Ok(index_name) => Ok(AlterTableAction::ClusterOn { index_name }),
                    Err(e) => Err(e),
                }
            },
            Some(Keyword::REPLICA) => self.parse_replica_identity(),
            Some(Keyword::NOCOMPRESS) => {
                self.advance();
                Ok(AlterTableAction::SetNoCompress)
            },
            Some(Keyword::FORCE) => {
                self.advance();
                match self.expect_row_level_security() {
                    Ok(()) => Ok(AlterTableAction::ForceRowLevelSecurity),
                    Err(e) => Err(e),
                }
            },
            Some(Keyword::NOT) => {
                self.advance();
                if !self.match_keyword(Keyword::OF) {
                    return Err(self.unexpected("OF after NOT"));
                }
                match self.parse_name_after_keyword() {
                    Ok(of_type) => Ok(AlterTableAction::NotOfType { of_type }),
                    Err(e) => Err(e),
                }
            },
            Some(Keyword::OF) => match self.parse_name_after_keyword() {
                Ok(of_type) => Ok(AlterTableAction::OfType { of_type }),
                Err(e) => Err(e),
            },
            Some(Keyword::COMMENT) => {
                self.advance();
                if self.match_token(&Token::Eq) {
                    self.advance();
                }
                match self.parse_string_literal() {
                    Ok(comment) => Ok(AlterTableAction::SetComment { comment }),
                    Err(e) => Err(e),
                }
            },
            Some(Keyword::ENCRYPTION) => {
                self.advance();
                match self.expect_keyword(Keyword::KEY) {
                    Ok(()) => {},
                    Err(e) => return Err(e),
                }
                match self.expect_keyword(Keyword::ROTATION) {
                    Ok(()) => Ok(AlterTableAction::EncryptionKeyRotation),
                    Err(e) => Err(e),
                }
            },
            Some(Keyword::DELETE_P) => {
                self.advance();
                match self.expect_keyword(Keyword::STATISTICS) {
                    Ok(()) => {},
                    Err(e) => return Err(e),
                }
                self.parse_statistics_columns(StatisticsOpKind::Delete)
            },
            _ => {
                if self.match_ident_str("ILM") {
                    self.parse_ilm_action()
                } else if self.match_ident_str("GSIWAITALL") {
                    self.advance();
                    Ok(AlterTableAction::GsiWaitAll)
                } else {
                    Err(self.unexpected("ALTER TABLE action"))
                }
            },
        }
    }

    /// `TABLE [IF EXISTS] name action, ...`.
    pub fn parse_alter_table(&mut self) -> (r: Result<AlterTableStatement, ParserError>)
        requires
            old(self).wf(),
        ensures
            old(self).steps(&*final(self)),
            !kw_at(old(self).toks(), old(self).position(), Keyword::TABLE) ==> r is Err
                && old(self).moved_to(&*final(self), old(self).position())
                && old(self).reports(r->Err_0, old(self).position(), "TABLE"@),
            r is Ok ==> {
                let toks = old(self).toks();
                let i = old(self).position() + 1;
                &&& final(self).position() > old(self).position()
                &&& r->Ok_0.if_exists == has_if_exists(toks, i)
                &&& object_name_at(toks, if_exists_end(toks, i)) matches Ok((n, _))
                &&& strings_view(r->Ok_0.name@) == object_name_at(toks, if_exists_end(toks, i))->Ok_0.0
                &&& r->Ok_0.actions@.len() >= 1
            },
            kw_at(old(self).toks(), old(self).position(), Keyword::TABLE) ==> {
                let toks = old(self).toks();
                match object_name_at(toks, if_exists_end(toks, old(self).position() + 1)) {
                    Err((q, e)) => r is Err && old(self).moved_to(&*final(self), q) && old(self).reports(r->Err_0, q, e),
                    Ok((_, k)) => match actions_from(toks, k, Seq::empty()) {
                        Some(Ok((vs, q))) => r is Ok && actions_match(toks, r->Ok_0.actions@, vs) && old(self).moved_to(&*final(self), q),
                        Some(Err((q, e))) => r is Err && old(self).moved_to(&*final(self), q) && old(self).reports(r->Err_0, q, e),
                        None => true,
                    },
                }
            },
    {
        match self.expect_keyword(Keyword::TABLE) {
            Ok(()) => {},
            Err(e) => return Err(e),
        }
        let if_exists = self.parse_if_exists();
        proof { lemma_object_name_bounds(self.toks(), self.position()); }
        let name = match self.parse_object_name() {
            Ok(n) => n,
            Err(e) => return Err(e),
        };
        let ghost toks = self.toks();
        let ghost whole = actions_from(toks, self.position(), Seq::empty());
        let mut actions: Vec<AlterTableAction> = Vec::new();
        let ghost mut vs: Seq<ActionView> = Seq::empty();
        let ghost mut pos = self.position();
        proof {
            assert(actions_match(toks, actions@, vs));
        }
        loop
            invariant_except_break
                whole is Some ==> actions_from(toks, self.position(), vs) == whole && actions_match(toks, actions@, vs)
                    && old(self).moved_to(&*self, self.position()),
            invariant
                old(self).steps(&*self),
                self.position() > old(self).position(),
                kw_at(old(self).toks(), old(self).position(), Keyword::TABLE),
                toks == old(self).toks(),
                object_name_at(toks, if_exists_end(toks, old(self).position() + 1)) is Ok,
                whole == actions_from(toks, object_name_at(toks, if_exists_end(toks, old(self).position() + 1))->Ok_0.1, Seq::empty()),
            ensures
                old(self).steps(&*self),
                self.position() > old(self).position(),
                actions@.len() >= 1,
                whole is Some ==> whole == Some(Outcome::<Seq<ActionView>>::Ok((vs, self.position())))
                    && actions_match(toks, actions@, vs) && old(self).moved_to(&*self, self.position()),
            decreases self.toks().len() - self.position(),
        {
            proof {
                pos = self.position();
            }
            match self.parse_alter_table_action() {
                Ok(a) => {
                    proof {
                        if whole is Some {
                            let v = single_action_at(toks, pos)->Some_0->Ok_0.0;
                            let old_vs = vs;
                            vs = vs.push(v);
                            assert forall|k: int| 0 <= k < actions@.len() + 1 implies action_matches(toks, actions@.push(a)[k], vs[k]) by {
                                if k < actions@.len() {
                                    assert(actions@.push(a)[k] == actions@[k]);
                                    assert(vs[k] == old_vs[k]);
                                }
                            }
                        }
                    }
                    actions.push(a);
                },
                Err(e) => return Err(e),
            }
            if !self.match_token(&Token::Comma) {
                break;
            }
            self.advance();
        }
        Ok(AlterTableStatement { if_exists, name, actions })
    }
}

} // verus!

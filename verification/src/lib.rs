//! Derivation engine for fluent builders.
//!
//! Given the declaration of a named aggregate type (its name, generic
//! parameters and an ordered list of fields, each field optionally annotated
//! with directives), the engine resolves the directives into a validated
//! schema and emits the source text of a companion builder: the builder
//! type, a default-initializing constructor, fluent setters and a validating
//! finalizer. Alongside the emitters, [`state`] holds a verified model of
//! the builder instances the emitted code creates, and [`laws`] proves the
//! guarantees that hold of every such builder.

use vstd::prelude::*;

pub mod builder;
pub mod directive;
pub mod emit;
pub mod grouped;
pub mod laws;
pub mod schema;
pub mod state;
pub mod text;

verus! {

use crate::directive::DiagnosticV;
use crate::grouped::{emit_derived, emit_errors, errors_text, grouped_text};
use crate::schema::{
    assemble, decl_errors, fields_of_decls, msg_unsupported_shape, DeclInput, DeclShapeV,
    TypeSpecV,
};

/// Derives the builder for one parsed type declaration: resolves the
/// directives, assembles the schema and emits the generated code; where the
/// declaration's shape or a field's annotations are invalid, emits one
/// generation-time failure line per diagnostic in place of code, so a
/// defective declaration never silently yields a builder.
pub fn derive(decl: DeclInput) -> (r: String)
    ensures
        ({
            match decl@.shape {
                DeclShapeV::NamedFields(fds) => {
                    if decl_errors(fds).len() == 0 {
                        r@ == grouped_text(
                            TypeSpecV {
                                name: decl@.name,
                                generics: decl@.generics,
                                where_clause: decl@.where_clause,
                                fields: fields_of_decls(fds),
                            },
                        )
                    } else {
                        r@ == errors_text(decl_errors(fds))
                    }
                },
                _ => r@ == errors_text(
                    seq![
                        DiagnosticV {
                            field: decl@.name,
                            message: msg_unsupported_shape(decl@.shape),
                        },
                    ],
                ),
            }
        }),
{
    match assemble(decl) {
        Ok(ts) => emit_derived(&ts),
        Err(ds) => emit_errors(&ds),
    }
}

} // verus!

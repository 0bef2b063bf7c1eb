use itertools::Itertools;

use rust_plotter::data_transform::identity::Identity;
use rust_plotter::data_transform::len::Len;
use rust_plotter::data_transform::mutate_info::{Accessor, MutateInfo, Mutation};
use rust_plotter::data_transform::mutator::Mutator;
use rust_plotter::data_transform::retrieve::Retrieve;
use rust_plotter::data_transform::transform::{Transform, VecTransform};

struct Scaler {
    scale: f32,
}

impl Mutator<f32, Vec<f32>> for Scaler {
    fn mutate<Source: Retrieve<f32>>(
        &mut self,
        src: &Source,
        out: &mut Vec<f32>,
        change: &MutateInfo,
    ) -> MutateInfo {
        match change {
            MutateInfo::Reset => {
                out.clear();
            }
            MutateInfo::Change(changes) => {
                changes.iter().for_each(|change| match change {
                    Mutation::Add(accessor) => {
                        out.extend(src.get(accessor).iter().map(|entry| entry * self.scale));
                    }
                    Mutation::Remove(accessor) => {
                        accessor.to_indices().into_iter().for_each(|index| {
                            out.remove(index);
                        });
                    }
                    _ => {}
                });
            }
            _ => {}
        }
        change.clone()
    }
}

#[test]
fn scaling_add_remove() {
    let scale = 0.2;
    let mutator = Scaler { scale };
    let mut transform = VecTransform::new_empty(mutator);

    let mut real_in_store = Identity::new(vec![] as Vec<f32>);
    let sig_in = (0..100).map(|elem| elem as f32);
    let chunk_n = 5;
    for chonk in sig_in.chunks(chunk_n).into_iter() {
        let change = real_in_store.add(chonk.collect());
        transform.mutate(&real_in_store, &change);
    }

    let full_access = Accessor::Range((0, transform.len()));
    assert!(real_in_store
        .get(&Accessor::Range((0, real_in_store.len())))
        .iter()
        .zip(transform.get(&full_access).iter())
        .all(|(raw_val, out_val)| raw_val * scale == *out_val));

    let remov_indices = [50, 5, 0];
    let remov_change = real_in_store.remove(remov_indices.iter().map(|index| *index as usize).collect());
    transform.mutate(&real_in_store, &remov_change);
    let full_access = Accessor::Range((0, transform.len()));
    assert!(real_in_store
        .get(&Accessor::Range((0, real_in_store.len())))
        .iter()
        .zip(transform.get(&full_access).iter())
        .all(|(raw_val, out_val)| raw_val * scale == *out_val));
    assert!(real_in_store.len() == 100 - remov_indices.len());
}
